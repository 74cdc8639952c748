//! Character-level helpers shared by the attribute parsers: string equality
//! and extraction of the last segment of a `::`-separated path reference.

use vstd::prelude::*;

verus! {

/// Compares two strings by their character sequences.
pub fn str_eq(a: &str, b: &str) -> (r: bool)
    ensures
        r == (a@ == b@),
{
    let na = a.unicode_len();
    let nb = b.unicode_len();
    if na != nb {
        proof {
            assert(a@ != b@) by {
                assert(a@.len() != b@.len());
            }
        }
        return false;
    }
    let mut i: usize = 0;
    while i < na
        invariant
            na == a@.len(),
            nb == b@.len(),
            na == nb,
            0 <= i <= na,
            forall|j: int| 0 <= j < i ==> a@[j] == b@[j],
        decreases na - i,
    {
        if a.get_char(i) != b.get_char(i) {
            return false;
        }
        i = i + 1;
    }
    proof {
        assert(a@ =~= b@);
    }
    true
}

/// The position just past the last `::` in `s` before index `i`, if any.
pub open spec fn last_sep_end(s: Seq<char>, i: int) -> Option<int>
    decreases i when i >= 0
{
    if i < 2 {
        None
    } else if s[i - 1] == ':' && s[i - 2] == ':' {
        Some(i)
    } else {
        last_sep_end(s, i - 1)
    }
}

/// The last segment of a `::`-separated path: the suffix after the final
/// `::`, or the whole text when no `::` occurs.
pub open spec fn last_segment_spec(s: Seq<char>) -> Seq<char> {
    match last_sep_end(s, s.len() as int) {
        Some(k) => s.subrange(k, s.len() as int),
        None => s,
    }
}

/// A path reference is usable when its last segment is a plain non-empty
/// name, i.e. contains no leftover `:` characters.
pub open spec fn path_ok(s: Seq<char>) -> bool {
    &&& last_segment_spec(s).len() > 0
    &&& forall|i: int| 0 <= i < last_segment_spec(s).len() ==> last_segment_spec(s)[i] != ':'
}

/// Finds the position just past the last `::` in `s`, scanning backward.
fn find_last_sep_end(s: &str, n: usize) -> (r: Option<usize>)
    requires
        n == s@.len(),
    ensures
        match r {
            Some(k) => last_sep_end(s@, n as int) == Some(k as int) && k <= n,
            None => last_sep_end(s@, n as int) is None,
        },
{
    let mut i: usize = n;
    while i >= 2
        invariant
            n == s@.len(),
            0 <= i <= n,
            last_sep_end(s@, n as int) == last_sep_end(s@, i as int),
        decreases i,
    {
        let c1 = s.get_char(i - 1);
        let c2 = s.get_char(i - 2);
        if c1 == ':' && c2 == ':' {
            proof {
                assert(s@[i as int - 1] == ':' && s@[i as int - 2] == ':');
                assert(last_sep_end(s@, i as int) == Some(i as int));
            }
            return Some(i);
        }
        i = i - 1;
    }
    proof {
        assert(last_sep_end(s@, i as int) is None);
    }
    None
}

/// Extracts the last segment of a `::`-separated path reference, or `None`
/// when the segment is empty or still contains `:`.
pub fn last_segment(s: &str) -> (r: Option<&str>)
    ensures
        r is Some <==> path_ok(s@),
        r matches Some(seg) ==> seg@ == last_segment_spec(s@),
{
    let n = s.unicode_len();
    let seg_start: usize = match find_last_sep_end(s, n) {
        Some(k) => k,
        None => 0,
    };
    proof {
        assert(last_segment_spec(s@) == s@.subrange(seg_start as int, n as int));
    }
    if seg_start == n {
        proof {
            assert(last_segment_spec(s@).len() == 0);
        }
        return None;
    }
    let seg = s.substring_char(seg_start, n);
    let seg_len = n - seg_start;
    let mut j: usize = 0;
    while j < seg_len
        invariant
            seg@ == last_segment_spec(s@),
            seg_len == seg@.len(),
            0 <= j <= seg_len,
            forall|k: int| 0 <= k < j ==> seg@[k] != ':',
        decreases seg_len - j,
    {
        if seg.get_char(j) == ':' {
            return None;
        }
        j = j + 1;
    }
    Some(seg)
}

} // verus!
