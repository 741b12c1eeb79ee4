//! Character-level string helpers that the catalog and session logic build on.

use vstd::prelude::*;

verus! {

/// The suffix of `s` after its last `'/'`; all of `s` when no `'/'` occurs.
pub open spec fn trailing_segment_of(s: Seq<char>) -> Seq<char>
    decreases s.len(),
{
    if s.len() == 0 {
        s
    } else if s[s.len() - 1] == '/' {
        Seq::empty()
    } else {
        trailing_segment_of(s.drop_last()).push(s[s.len() - 1])
    }
}

/// Character-by-character string equality, stated over the views.
pub fn str_eq(a: &str, b: &str) -> (r: bool)
    ensures
        r == (a@ == b@),
{
    let a_len = a.unicode_len();
    let b_len = b.unicode_len();
    if a_len != b_len {
        assert(a@ != b@) by {
            assert(a@.len() != b@.len());
        }
        return false;
    }
    let mut i: usize = 0;
    while i < a_len
        invariant
            i <= a_len,
            a_len == a@.len(),
            b_len == b@.len(),
            a_len == b_len,
            forall|j: int| 0 <= j < i ==> a@[j] == b@[j],
        decreases a_len - i,
    {
        if a.get_char(i) != b.get_char(i) {
            assert(a@[i as int] != b@[i as int]);
            return false;
        }
        i += 1;
    }
    assert(a@ =~= b@);
    true
}

/// Whether `p` is a prefix of `s`.
pub fn has_prefix(s: &str, p: &str) -> (r: bool)
    ensures
        r == p@.is_prefix_of(s@),
{
    let s_len = s.unicode_len();
    let p_len = p.unicode_len();
    if p_len > s_len {
        assert(!p@.is_prefix_of(s@)) by {
            assert(p@.len() > s@.len());
        }
        return false;
    }
    let mut i: usize = 0;
    while i < p_len
        invariant
            i <= p_len,
            p_len == p@.len(),
            s_len == s@.len(),
            p_len <= s_len,
            forall|j: int| 0 <= j < i ==> p@[j] == s@[j],
        decreases p_len - i,
    {
        if p.get_char(i) != s.get_char(i) {
            assert(p@[i as int] != s@[i as int]);
            return false;
        }
        i += 1;
    }
    assert(p@ =~= s@.subrange(0, p@.len() as int));
    true
}

/// The trailing path segment of `url`, as the catalog derives filenames.
pub fn trailing_segment(url: &str) -> (r: String)
    ensures
        r@ == trailing_segment_of(url@),
{
    let len = url.unicode_len();
    let mut i: usize = 0;
    let mut start: usize = 0;
    while i < len
        invariant
            i <= len,
            len == url@.len(),
            start <= i,
            url@.subrange(start as int, i as int) =~= trailing_segment_of(url@.subrange(0, i as int)),
        decreases len - i,
    {
        let ghost prefix = url@.subrange(0, i as int);
        let c = url.get_char(i);
        proof {
            assert(url@.subrange(0, i + 1).drop_last() =~= prefix);
            assert(url@.subrange(0, i + 1).last() == c);
        }
        if c == '/' {
            start = i + 1;
            proof {
                assert(url@.subrange(start as int, i + 1) =~= Seq::<char>::empty());
            }
        } else {
            proof {
                assert(url@.subrange(start as int, i + 1)
                    =~= url@.subrange(start as int, i as int).push(c));
            }
        }
        i += 1;
    }
    proof {
        assert(url@.subrange(0, len as int) =~= url@);
    }
    url.substring_char(start, len).to_owned()
}

} // verus!
