//! Parsing of environment values.
use vstd::prelude::*;

use crate::string::string_of_chars;

verus! {

/// The separator of entries in a search-path list.
pub const PATH_SEPARATOR: char = ';';

/// The entries found after reading `s` from left to right, and the entry
/// still being read.
pub open spec fn scan_entries(s: Seq<char>) -> (Seq<Seq<char>>, Seq<char>)
    decreases s.len(),
{
    if s.len() == 0 {
        (Seq::empty(), Seq::empty())
    } else {
        let (done, cur) = scan_entries(s.drop_last());
        if s.last() == PATH_SEPARATOR {
            (if cur.len() > 0 {
                done.push(cur)
            } else {
                done
            }, Seq::empty())
        } else {
            (done, cur.push(s.last()))
        }
    }
}

/// The non-empty pieces of `s` between separators, in order.
pub open spec fn path_entries(s: Seq<char>) -> Seq<Seq<char>> {
    let (done, cur) = scan_entries(s);
    if cur.len() > 0 {
        done.push(cur)
    } else {
        done
    }
}

/// The texts of a sequence of strings.
pub open spec fn string_views(v: Seq<String>) -> Seq<Seq<char>> {
    v.map_values(|x: String| x@)
}

/// Splits a search-path list at its separators, dropping empty entries.
pub fn split_path_list(value: &str) -> (r: Vec<String>)
    ensures
        string_views(r@) == path_entries(value@),
{
    let mut out: Vec<String> = Vec::new();
    let mut cur: Vec<char> = Vec::new();
    for c in it: value.chars()
        invariant
            it.seq() == value@,
            0 <= it.index() <= value@.len(),
            (string_views(out@), cur@) == scan_entries(value@.subrange(0, it.index() as int)),
    {
        let ghost prefix = value@.subrange(0, it.index() as int);
        proof {
            let next = value@.subrange(0, it.index() + 1);
            assert(next.drop_last() =~= prefix);
            assert(next.last() == c);
        }
        if c == PATH_SEPARATOR {
            if cur.len() > 0 {
                let entry = string_of_chars(cur);
                let ghost before = out@;
                out.push(entry);
                proof {
                    assert(string_views(out@) =~= string_views(before).push(entry@));
                }
            }
            cur = Vec::new();
        } else {
            cur.push(c);
        }
    }
    proof {
        assert(value@.subrange(0, value@.len() as int) =~= value@);
    }
    if cur.len() > 0 {
        let entry = string_of_chars(cur);
        let ghost before = out@;
        out.push(entry);
        proof {
            assert(string_views(out@) =~= string_views(before).push(entry@));
        }
    }
    out
}

} // verus!
