//! The filter: which packages a search text selects, in their original order.

use vstd::prelude::*;

use crate::app::{Package, PackageView, packages_view};
use crate::text::{chars_of, contains_chars, contains_seq, occurs_at};

verus! {

/// Whether the package's name holds `pat` as a literal substring.
pub open spec fn name_matches(p: PackageView, pat: Seq<char>) -> bool {
    contains_seq(p.name, pat)
}

/// The indices of the packages whose name contains `pat`, in increasing order.
pub open spec fn filter_indices(pkgs: Seq<PackageView>, pat: Seq<char>) -> Seq<usize>
    decreases pkgs.len(),
{
    if pkgs.len() == 0 {
        Seq::empty()
    } else {
        let rest = filter_indices(pkgs.drop_last(), pat);
        if name_matches(pkgs.last(), pat) {
            rest.push((pkgs.len() - 1) as usize)
        } else {
            rest
        }
    }
}

/// The filter selects exactly the packages whose name contains the search
/// text, each once and in their original order; the empty search text
/// selects every package.
pub proof fn lemma_filter_exact(pkgs: Seq<PackageView>, pat: Seq<char>)
    requires
        pkgs.len() <= usize::MAX,
    ensures
        forall|k: int|
            0 <= k < filter_indices(pkgs, pat).len() ==> {
                let i = #[trigger] filter_indices(pkgs, pat)[k];
                &&& i < pkgs.len()
                &&& name_matches(pkgs[i as int], pat)
            },
        forall|i: int|
            0 <= i < pkgs.len() && name_matches(pkgs[i], pat) ==> #[trigger] filter_indices(
                pkgs,
                pat,
            ).contains(i as usize),
        forall|a: int, b: int|
            0 <= a < b < filter_indices(pkgs, pat).len() ==> filter_indices(pkgs, pat)[a]
                < filter_indices(pkgs, pat)[b],
        pat.len() == 0 ==> filter_indices(pkgs, pat) == Seq::new(pkgs.len(), |i: int| i as usize),
    decreases pkgs.len(),
{
    let r = filter_indices(pkgs, pat);
    if pkgs.len() > 0 {
        let front = pkgs.drop_last();
        lemma_filter_exact(front, pat);
        let rest = filter_indices(front, pat);
        assert forall|k: int| 0 <= k < rest.len() implies rest[k] < front.len() by {
            let i = rest[k];
        }
        assert forall|i: int|
            0 <= i < pkgs.len() && name_matches(pkgs[i], pat) implies r.contains(i as usize) by {
            if i < front.len() {
                assert(front[i] == pkgs[i]);
                assert(rest.contains(i as usize));
                let k = choose|k: int| 0 <= k < rest.len() && rest[k] == i as usize;
                assert(r[k] == i as usize);
            } else {
                assert(r[r.len() - 1] == i as usize);
            }
        }
        assert forall|k: int| 0 <= k < r.len() implies {
            let i = #[trigger] r[k];
            &&& i < pkgs.len()
            &&& name_matches(pkgs[i as int], pat)
        } by {
            if k < rest.len() {
                let i = rest[k];
                assert(front[i as int] == pkgs[i as int]);
            }
        }
        if pat.len() == 0 {
            assert(occurs_at(pkgs.last().name, pat, 0)) by {
                assert(pkgs.last().name.subrange(0, 0) =~= pat);
            }
            assert(r =~= Seq::new(pkgs.len(), |i: int| i as usize));
        }
    } else {
        assert(r =~= Seq::new(pkgs.len(), |i: int| i as usize));
    }
}

/// The indices of the packages whose name contains `pat`.
pub fn matching_indices(packages: &Vec<Package>, pat: &Vec<char>) -> (r: Vec<usize>)
    ensures
        r@ == filter_indices(packages_view(packages@), pat@),
{
    let mut r: Vec<usize> = Vec::new();
    let mut i: usize = 0;
    while i < packages.len()
        invariant
            i <= packages.len(),
            r@ == filter_indices(packages_view(packages@).take(i as int), pat@),
        decreases packages.len() - i,
    {
        let ghost pkgs = packages_view(packages@);
        assert(pkgs.take(i + 1).drop_last() =~= pkgs.take(i as int));
        let name = chars_of(packages[i].name.as_str());
        if contains_chars(&name, pat) {
            r.push(i);
        }
        i = i + 1;
    }
    assert(packages_view(packages@).take(i as int) =~= packages_view(packages@));
    r
}

} // verus!
