//! Well-formedness of Modified-UTF-8, the string encoding of `UTF8`
//! constant-pool entries.
//!
//! Modified-UTF-8 differs from standard UTF-8 in that the NUL character is
//! encoded in two bytes (so no byte of a body is 0x00) and supplementary
//! code points appear as surrogate pairs, each half in three bytes (so no
//! four-byte sequences occur). Structurally a body is a sequence of one-,
//! two-, and three-byte groups: 0x01..=0x7F alone, 0xC0..=0xDF followed by
//! one continuation byte, 0xE0..=0xEF followed by two continuation bytes,
//! where a continuation byte is 0x80..=0xBF.

use vstd::prelude::*;

verus! {

/// Whether `b` is a continuation byte (`10xxxxxx`).
pub open spec fn is_cont(b: u8) -> bool {
    0x80 <= b && b <= 0xBF
}

/// Whether `s` is a well-formed Modified-UTF-8 body.
pub open spec fn is_mutf8(s: Seq<u8>) -> bool
    decreases s.len(),
{
    if s.len() == 0 {
        true
    } else if 0x01 <= s[0] && s[0] <= 0x7F {
        is_mutf8(s.skip(1))
    } else if 0xC0 <= s[0] && s[0] <= 0xDF {
        s.len() >= 2 && is_cont(s[1]) && is_mutf8(s.skip(2))
    } else if 0xE0 <= s[0] && s[0] <= 0xEF {
        s.len() >= 3 && is_cont(s[1]) && is_cont(s[2]) && is_mutf8(s.skip(3))
    } else {
        false
    }
}

/// Decide well-formedness of a Modified-UTF-8 body.
pub fn check_mutf8(s: &[u8]) -> (r: bool)
    ensures
        r == is_mutf8(s@),
{
    let n: usize = s.len();
    let mut k: usize = 0;
    assert(s@.skip(0) =~= s@);
    loop
        invariant
            k <= n,
            n == s@.len(),
            is_mutf8(s@) == is_mutf8(s@.skip(k as int)),
        decreases n - k,
    {
        if k == n {
            assert(s@.skip(k as int) =~= Seq::<u8>::empty());
            return true;
        }
        let b0 = s[k];
        if 0x01 <= b0 && b0 <= 0x7F {
            assert(s@.skip(k as int).skip(1) =~= s@.skip(k + 1));
            k = k + 1;
        } else if 0xC0 <= b0 && b0 <= 0xDF {
            if n - k < 2 || !(0x80 <= s[k + 1] && s[k + 1] <= 0xBF) {
                return false;
            }
            assert(s@.skip(k as int).skip(2) =~= s@.skip(k + 2));
            k = k + 2;
        } else if 0xE0 <= b0 && b0 <= 0xEF {
            if n - k < 3 || !(0x80 <= s[k + 1] && s[k + 1] <= 0xBF) || !(0x80 <= s[k + 2] && s[k
                + 2] <= 0xBF) {
                return false;
            }
            assert(s@.skip(k as int).skip(3) =~= s@.skip(k + 3));
            k = k + 3;
        } else {
            return false;
        }
    }
}

} // verus!
