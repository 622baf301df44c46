//! The package list: the query flags that select which packages pacman
//! reports, and the reading of its report into package records.

use vstd::prelude::*;

use crate::app::{Package, PackageView, packages_view};
use crate::text::{lines_of, split_lines, views_of};

verus! {

/// regex's error for a pattern that does not compile.
#[verifier::external_type_specification]
#[verifier::external_body]
pub struct ExRegexError(regex::Error);

/// The pieces of `haystack` between the matches of the regular expression
/// `pattern`, in order.
pub uninterp spec fn regex_pieces(pattern: Seq<char>, haystack: Seq<char>) -> Seq<Seq<char>>;

/// Relies on `regex::Regex::new`, which compiles `pattern` or says why it
/// cannot, and `regex::Regex::split`, which yields the pieces of `haystack`
/// between the pattern's matches, in order; they depend on the pattern and
/// the haystack alone.
#[verifier::external_body]
fn split_by_pattern(pattern: &str, haystack: &str) -> (r: Result<Vec<String>, regex::Error>)
    ensures
        r matches Ok(v) ==> views_of(v@) == regex_pieces(pattern@, haystack@),
{
    let re = regex::Regex::new(pattern)?;
    Ok(re.split(haystack).map(|p| p.to_string()).collect())
}

/// Where one package's entry begins in pacman's report: a line that starts
/// with the `Name` field.
pub const ENTRY_SEPARATOR: &'static str = r"(?m)^Name\s+: ";

/// Why the report could not be read.
#[derive(Clone, Copy, Debug, PartialEq, Eq, Structural)]
pub enum ListError {
    /// The entry separator did not compile as a regular expression.
    Pattern,
}

/// The package that one entry of the report describes: its first line is the
/// name, the others describe it; an entry without lines describes none.
pub open spec fn package_of_entry(entry: Seq<char>) -> Option<PackageView> {
    let lines = lines_of(entry);
    if lines.len() > 0 {
        Some(PackageView { name: lines[0], info: lines.drop_first() })
    } else {
        None
    }
}

/// The packages that `entries` describe, in order.
pub open spec fn packages_of_entries(entries: Seq<Seq<char>>) -> Seq<PackageView>
    decreases entries.len(),
{
    if entries.len() == 0 {
        Seq::empty()
    } else {
        let rest = packages_of_entries(entries.drop_last());
        match package_of_entry(entries.last()) {
            Some(p) => rest.push(p),
            None => rest,
        }
    }
}

/// The packages that the report's entries describe, in order.
pub fn packages_from_entries(entries: &Vec<String>) -> (r: Vec<Package>)
    ensures
        packages_view(r@) == packages_of_entries(views_of(entries@)),
{
    let mut r: Vec<Package> = Vec::new();
    let mut i: usize = 0;
    while i < entries.len()
        invariant
            i <= entries.len(),
            packages_view(r@) == packages_of_entries(views_of(entries@).take(i as int)),
        decreases entries.len() - i,
    {
        assert(views_of(entries@).take(i + 1).drop_last() =~= views_of(entries@).take(i as int));
        let mut lines = split_lines(entries[i].as_str());
        if lines.len() > 0 {
            let ghost all = views_of(lines@);
            let name = lines.remove(0);
            assert(views_of(lines@) =~= all.drop_first());
            let ghost prev = r@;
            r.push(Package { name, info: lines });
            assert(packages_view(r@) =~= packages_view(prev).push(
                PackageView { name: all[0], info: all.drop_first() },
            ));
        }
        i = i + 1;
    }
    assert(views_of(entries@).take(i as int) =~= views_of(entries@));
    r
}

/// Reads pacman's report of installed packages: the report is cut into
/// entries where each `Name` field begins, and each entry gives a package.
pub fn parse_package_list(raw_string: String) -> (r: Result<Vec<Package>, ListError>)
    ensures
        r matches Ok(v) ==> packages_view(v@) == packages_of_entries(
            regex_pieces(ENTRY_SEPARATOR@, raw_string@),
        ),
{
    match split_by_pattern(ENTRY_SEPARATOR, raw_string.as_str()) {
        Ok(entries) => Ok(packages_from_entries(&entries)),
        Err(_) => Err(ListError::Pattern),
    }
}

/// Which packages pacman is to report.
#[derive(Clone, Copy, Debug, PartialEq, Eq, Structural)]
pub struct QueryFlags {
    /// Only those installed as dependencies.
    pub deps: bool,
    /// Only those installed explicitly.
    pub explicit: bool,
    /// Only those from outside the sync databases.
    pub foreign: bool,
    /// Only those from the sync databases.
    pub native: bool,
    /// Only those that no other package requires.
    pub unrequired: bool,
    /// Only those that can be upgraded.
    pub upgrades: bool,
}

/// `letter` where `on` holds, else nothing.
pub open spec fn flag_part(on: bool, letter: Seq<char>) -> Seq<char> {
    if on {
        letter
    } else {
        Seq::empty()
    }
}

/// The query argument for `f`: information and file lists of the installed
/// packages, followed by one letter for each flag that is set.
pub open spec fn query_arg(f: QueryFlags) -> Seq<char> {
    "-Qil"@ + flag_part(f.deps, "d"@) + flag_part(f.explicit, "e"@) + flag_part(f.foreign, "m"@)
        + flag_part(f.native, "n"@) + flag_part(f.unrequired, "t"@) + flag_part(
        f.upgrades,
        "u"@,
    )
}

/// The argument that asks pacman for the packages that `flags` select.
pub fn query_argument(flags: &QueryFlags) -> (r: String)
    ensures
        r@ == query_arg(*flags),
{
    let mut arg = String::from_str("-Qil");
    if flags.deps {
        arg.append("d");
    }
    if flags.explicit {
        arg.append("e");
    }
    if flags.foreign {
        arg.append("m");
    }
    if flags.native {
        arg.append("n");
    }
    if flags.unrequired {
        arg.append("t");
    }
    if flags.upgrades {
        arg.append("u");
    }
    assert(arg@ =~= query_arg(*flags));
    arg
}

} // verus!
