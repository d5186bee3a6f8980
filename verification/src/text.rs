//! Character-level helpers: string equality, and decimal parsing of
//! unsigned 8-bit verbosity levels.

use vstd::prelude::*;
use vstd::string::*;

verus! {

/// Character-for-character equality of two string slices.
pub fn str_eq(a: &str, b: &str) -> (r: bool)
    ensures
        r == (a@ == b@),
{
    let a_len = a.unicode_len();
    let b_len = b.unicode_len();
    if a_len != b_len {
        return false;
    }
    let mut i: usize = 0;
    while i < a_len
        invariant
            i <= a_len,
            a_len == a@.len(),
            a_len == b@.len(),
            forall|j: int| 0 <= j < i ==> a@[j] == b@[j],
        decreases a_len - i,
    {
        if a.get_char(i) != b.get_char(i) {
            return false;
        }
        i = i + 1;
    }
    proof {
        assert(a@ =~= b@);
    }
    true
}

/// A decimal digit.
pub open spec fn is_dec_digit(c: char) -> bool {
    '0' <= c && c <= '9'
}

/// Numeric value of a decimal digit.
pub open spec fn digit_val(c: char) -> nat {
    ((c as int) - ('0' as int)) as nat
}

/// Every character of the sequence is a decimal digit.
pub open spec fn all_dec_digits(s: Seq<char>) -> bool {
    forall|i: int| 0 <= i < s.len() ==> is_dec_digit(#[trigger] s[i])
}

/// Value of a sequence of decimal digits, most significant first.
pub open spec fn dec_val(s: Seq<char>) -> nat
    decreases s.len(),
{
    if s.len() == 0 {
        0
    } else {
        dec_val(s.drop_last()) * 10 + digit_val(s.last())
    }
}

/// The digit portion of a decimal numeral: an optional leading `+` sign
/// is discarded, as the standard unsigned-integer grammar allows one.
pub open spec fn dec_body(s: Seq<char>) -> Seq<char> {
    if s.len() > 0 && s[0] == '+' {
        s.drop_first()
    } else {
        s
    }
}

/// The unsigned 8-bit value denoted by the string, if any: after an
/// optional leading `+`, at least one decimal digit, nothing else, and a
/// value of at most 255.
pub open spec fn u8_from_dec(s: Seq<char>) -> Option<u8> {
    let d = dec_body(s);
    if d.len() > 0 && all_dec_digits(d) && dec_val(d) <= 255 {
        Some(dec_val(d) as u8)
    } else {
        None
    }
}

/// A digit string is worth at least as much as any of its prefixes.
proof fn lemma_dec_val_prefix_le(s: Seq<char>, k: int)
    requires
        0 <= k <= s.len(),
        all_dec_digits(s),
    ensures
        dec_val(s.subrange(0, k)) <= dec_val(s),
    decreases s.len() - k,
{
    if k == s.len() {
        assert(s.subrange(0, k) =~= s);
    } else {
        let shorter = s.subrange(0, k);
        let longer = s.subrange(0, k + 1);
        assert(longer.drop_last() =~= shorter);
        assert(dec_val(shorter) <= dec_val(longer));
        lemma_dec_val_prefix_le(s, k + 1);
    }
}

/// Parses the string as an unsigned 8-bit decimal numeral, exactly as
/// `u8_from_dec` describes.
pub fn parse_u8(s: &str) -> (r: Option<u8>)
    ensures
        r == u8_from_dec(s@),
{
    let n = s.unicode_len();
    let start: usize = if n > 0 && s.get_char(0) == '+' {
        1
    } else {
        0
    };
    proof {
        assert(dec_body(s@) =~= s@.skip(start as int));
    }
    if start == n {
        return None;
    }
    let mut i: usize = start;
    let mut val: u32 = 0;
    while i < n
        invariant
            start <= i <= n,
            n == s@.len(),
            dec_body(s@) == s@.skip(start as int),
            all_dec_digits(s@.subrange(start as int, i as int)),
            val == dec_val(s@.subrange(start as int, i as int)),
            val <= 255,
        decreases n - i,
    {
        let c = s.get_char(i);
        if !('0' <= c && c <= '9') {
            proof {
                assert(s@.skip(start as int)[i - start] == s@[i as int]);
                assert(!all_dec_digits(dec_body(s@)));
            }
            return None;
        }
        let d: u32 = (c as u32) - ('0' as u32);
        let next_val: u32 = val * 10 + d;
        proof {
            let prefix = s@.subrange(start as int, i as int);
            let extended = s@.subrange(start as int, i + 1);
            assert(extended.drop_last() =~= prefix);
            assert(extended.last() == s@[i as int]);
            assert(forall|j: int| 0 <= j < extended.len() ==> is_dec_digit(#[trigger] extended[j]));
            assert(next_val == dec_val(extended));
        }
        if next_val > 255 {
            proof {
                let body = dec_body(s@);
                if all_dec_digits(body) {
                    let extended = s@.subrange(start as int, i + 1);
                    assert(extended =~= body.subrange(0, i + 1 - start));
                    lemma_dec_val_prefix_le(body, i + 1 - start);
                    assert(dec_val(body) > 255);
                }
            }
            return None;
        }
        val = next_val;
        i = i + 1;
    }
    proof {
        assert(s@.subrange(start as int, n as int) =~= dec_body(s@));
    }
    Some(val as u8)
}

} // verus!
