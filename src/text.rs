//! Text as sequences of characters: conversion from and to strings, literal
//! substring search, and splitting into and joining of lines.

use vstd::prelude::*;

verus! {

/// `pat` occurs in `text` starting at position `i`.
pub open spec fn occurs_at(text: Seq<char>, pat: Seq<char>, i: int) -> bool {
    0 <= i && i + pat.len() <= text.len() && text.subrange(i, i + pat.len()) == pat
}

/// `pat` occurs in `text` as a literal substring; the empty pattern occurs everywhere.
pub open spec fn contains_seq(text: Seq<char>, pat: Seq<char>) -> bool {
    exists|i: int| occurs_at(text, pat, i)
}

/// The characters of `s`, in order.
pub fn chars_of(s: &str) -> (r: Vec<char>)
    ensures
        r@ == s@,
{
    let mut r: Vec<char> = Vec::new();
    for c in it: s.chars()
        invariant
            r@ == it.seq().take(it.index() as int),
    {
        r.push(c);
    }
    r
}


/// The views of a sequence of strings.
pub open spec fn views_of(v: Seq<String>) -> Seq<Seq<char>> {
    v.map_values(|s: String| s@)
}

/// Whether `pat` occurs in `text` as a literal substring.
pub fn contains_chars(text: &Vec<char>, pat: &Vec<char>) -> (r: bool)
    ensures
        r == contains_seq(text@, pat@),
{
    if pat.len() > text.len() {
        return false;
    }
    let last_start = text.len() - pat.len();
    let mut i: usize = 0;
    while i <= last_start
        invariant
            last_start == text.len() - pat.len(),
            pat.len() <= text.len(),
            forall|k: int| 0 <= k < i ==> !occurs_at(text@, pat@, k),
        decreases last_start + 1 - i,
    {
        let mut j: usize = 0;
        while j < pat.len() && text[i + j] == pat[j]
            invariant
                i <= last_start,
                last_start == text.len() - pat.len(),
                j <= pat.len(),
                forall|t: int| 0 <= t < j ==> text@[i + t] == pat@[t],
            decreases pat.len() - j,
        {
            j = j + 1;
        }
        if j == pat.len() {
            assert(text@.subrange(i as int, i + pat.len()) =~= pat@);
            assert(occurs_at(text@, pat@, i as int));
            return true;
        }
        assert(!occurs_at(text@, pat@, i as int)) by {
            assert(text@.subrange(i as int, i + pat.len())[j as int] == text@[i + j]);
        }
        i = i + 1;
    }
    false
}

/// Relies on `String`'s `FromIterator<char>`: the string holds the characters
/// in the order given.
#[verifier::external_body]
pub(crate) fn string_of(chars: &Vec<char>) -> (r: String)
    ensures
        r@ == chars@,
{
    chars.iter().collect()
}

/// A line without the carriage return that ended it, if one did.
pub open spec fn without_cr(line: Seq<char>) -> Seq<char> {
    if line.len() > 0 && line.last() == '\r' {
        line.drop_last()
    } else {
        line
    }
}

/// The lines of `s` that a line feed has closed, and the characters after the
/// last line feed.
pub open spec fn line_split(s: Seq<char>) -> (Seq<Seq<char>>, Seq<char>)
    decreases s.len(),
{
    if s.len() == 0 {
        (Seq::empty(), Seq::empty())
    } else {
        let (done, cur) = line_split(s.drop_last());
        if s.last() == '\n' {
            (done.push(without_cr(cur)), Seq::empty())
        } else {
            (done, cur.push(s.last()))
        }
    }
}

/// The lines of `s`: split at each line feed (a carriage return before it is
/// dropped), with no extra empty line after a final line feed.
pub open spec fn lines_of(s: Seq<char>) -> Seq<Seq<char>> {
    let (done, cur) = line_split(s);
    if cur.len() == 0 {
        done
    } else {
        done.push(cur)
    }
}

/// `lines` joined by line feeds, with none after the last one.
pub open spec fn joined(lines: Seq<Seq<char>>) -> Seq<char>
    decreases lines.len(),
{
    if lines.len() == 0 {
        Seq::empty()
    } else if lines.len() == 1 {
        lines[0]
    } else {
        joined(lines.drop_last()) + seq!['\n'] + lines.last()
    }
}

/// Splits `s` into its lines.
pub fn split_lines(s: &str) -> (r: Vec<String>)
    ensures
        views_of(r@) == lines_of(s@),
{
    let chars = chars_of(s);
    let mut done: Vec<String> = Vec::new();
    let mut cur: Vec<char> = Vec::new();
    let mut i: usize = 0;
    while i < chars.len()
        invariant
            i <= chars.len(),
            (views_of(done@), cur@) == line_split(chars@.take(i as int)),
        decreases chars.len() - i,
    {
        let c = chars[i];
        assert(chars@.take(i + 1).drop_last() =~= chars@.take(i as int));
        if c == '\n' {
            if cur.len() > 0 && cur[cur.len() - 1] == '\r' {
                cur.pop();
            }
            let line = string_of(&cur);
            done.push(line);
            assert(views_of(done@) =~= line_split(chars@.take(i as int)).0.push(cur@));
            cur = Vec::new();
        } else {
            cur.push(c);
        }
        i = i + 1;
    }
    assert(chars@.take(i as int) =~= s@);
    if cur.len() > 0 {
        let line = string_of(&cur);
        done.push(line);
        assert(views_of(done@) =~= line_split(s@).0.push(cur@));
    }
    done
}

/// `lines` joined by line feeds.
pub fn join_lines(lines: &Vec<String>) -> (r: String)
    ensures
        r@ == joined(views_of(lines@)),
{
    let mut r = String::new();
    let mut i: usize = 0;
    while i < lines.len()
        invariant
            i <= lines.len(),
            r@ == joined(views_of(lines@).take(i as int)),
        decreases lines.len() - i,
    {
        assert(views_of(lines@).take(i + 1).drop_last() =~= views_of(lines@).take(i as int));
        if i > 0 {
            r.append("\n");
            proof {
                reveal_strlit("\n");
            }
        }
        r.append(lines[i].as_str());
        assert(r@ =~= joined(views_of(lines@).take(i + 1)));
        i = i + 1;
    }
    assert(views_of(lines@).take(i as int) =~= views_of(lines@));
    r
}

} // verus!
