//! Whitespace trimming over character sequences, used by request
//! validation. Whitespace here is the ASCII kind: space, tab, line feed,
//! form feed and carriage return.

use vstd::prelude::*;

verus! {

/// Is this an ASCII whitespace character?
pub open spec fn is_space_char(c: char) -> bool {
    c == ' ' || c == '\t' || c == '\n' || c == '\r' || c == '\u{c}'
}

/// The sequence without its leading whitespace.
pub open spec fn drop_leading_spaces(s: Seq<char>) -> Seq<char>
    decreases s.len(),
{
    if s.len() > 0 && is_space_char(s.first()) {
        drop_leading_spaces(s.drop_first())
    } else {
        s
    }
}

/// The sequence without its trailing whitespace.
pub open spec fn drop_trailing_spaces(s: Seq<char>) -> Seq<char>
    decreases s.len(),
{
    if s.len() > 0 && is_space_char(s.last()) {
        drop_trailing_spaces(s.drop_last())
    } else {
        s
    }
}

/// The sequence without leading and trailing whitespace.
pub open spec fn trimmed(s: Seq<char>) -> Seq<char> {
    drop_trailing_spaces(drop_leading_spaces(s))
}

/// Is this an ASCII whitespace character?
fn is_space_exec(c: char) -> (b: bool)
    ensures
        b == is_space_char(c),
{
    c == ' ' || c == '\t' || c == '\n' || c == '\r' || c == '\u{c}'
}

/// The character count of the text once leading and trailing whitespace is
/// removed; zero exactly when the text is all whitespace.
pub fn trimmed_len(s: &String) -> (n: usize)
    ensures
        n == trimmed(s@).len(),
{
    let st = s.as_str();
    let len = st.unicode_len();
    let mut lo: usize = 0;
    proof {
        assert(s@.skip(0) =~= s@);
    }
    while lo < len && is_space_exec(st.get_char(lo))
        invariant
            lo <= len,
            len == s@.len(),
            st@ == s@,
            drop_leading_spaces(s@) == drop_leading_spaces(s@.skip(lo as int)),
        decreases len - lo,
    {
        proof {
            let t = s@.skip(lo as int);
            assert(t.first() == s@[lo as int]);
            assert(t.drop_first() =~= s@.skip(lo as int + 1));
        }
        lo = lo + 1;
    }
    proof {
        if lo == len {
            assert(s@.skip(len as int) =~= Seq::<char>::empty());
        } else {
            assert(s@.skip(lo as int).first() == s@[lo as int]);
        }
        assert(drop_leading_spaces(s@) == s@.skip(lo as int));
        assert(s@.skip(lo as int) =~= s@.subrange(lo as int, len as int));
    }
    let mut hi: usize = len;
    while hi > lo && is_space_exec(st.get_char(hi - 1))
        invariant
            lo <= hi <= len,
            len == s@.len(),
            st@ == s@,
            drop_leading_spaces(s@) == s@.subrange(lo as int, len as int),
            trimmed(s@) == drop_trailing_spaces(s@.subrange(lo as int, hi as int)),
        decreases hi,
    {
        proof {
            let t = s@.subrange(lo as int, hi as int);
            assert(t.last() == s@[hi - 1 as int]);
            assert(t.drop_last() =~= s@.subrange(lo as int, hi as int - 1));
        }
        hi = hi - 1;
    }
    proof {
        let t = s@.subrange(lo as int, hi as int);
        if hi == lo {
            assert(t =~= Seq::<char>::empty());
        } else {
            assert(t.last() == s@[hi - 1 as int]);
        }
        assert(trimmed(s@) == t);
    }
    hi - lo
}

} // verus!
