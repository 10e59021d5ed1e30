//! Small verified helpers on strings that the rest of the library shares.

use vstd::prelude::*;
use vstd::string::StringExecFns;
use vstd::string::StrSliceExecFns;
use vstd::utf8::encode_utf8;
use vstd::utf8::encode_utf8_decode_utf8;

verus! {

/// Whether two string slices hold the same characters.
///
/// The comparison runs over the UTF-8 bytes; since the encoding can be
/// decoded again, equal bytes mean equal characters.
pub fn str_eq(a: &str, b: &str) -> (r: bool)
    ensures
        r == (a@ == b@),
{
    let x = a.as_bytes();
    let y = b.as_bytes();
    proof {
        encode_utf8_decode_utf8(a@);
        encode_utf8_decode_utf8(b@);
    }
    if x.len() != y.len() {
        return false;
    }
    let mut i: usize = 0;
    while i < x.len()
        invariant
            x.len() == y.len(),
            i <= x.len(),
            x@ == encode_utf8(a@),
            y@ == encode_utf8(b@),
            forall|j: int| 0 <= j < i ==> x@[j] == y@[j],
        decreases x.len() - i,
    {
        if x[i] != y[i] {
            return false;
        }
        i += 1;
    }
    assert(x@ =~= y@);
    true
}

/// A run of `n` characters `'0'`.
pub open spec fn zeros_spec(n: nat) -> Seq<char> {
    Seq::new(n, |i: int| '0')
}

/// Builds the string of `n` characters `'0'`.
pub fn zeros(n: usize) -> (r: String)
    ensures
        r@ == zeros_spec(n as nat),
{
    let mut out = String::new();
    let mut i: usize = 0;
    while i < n
        invariant
            i <= n,
            out@ == zeros_spec(i as nat),
        decreases n - i,
    {
        out.append("0");
        proof {
            reveal_strlit("0");
        }
        i += 1;
    }
    out
}

/// Whether `c` is one of the ten decimal digits.
pub open spec fn is_decimal_digit(c: char) -> bool {
    '0' <= c && c <= '9'
}

/// The number that a run of decimal digits writes, most significant first.
pub open spec fn digits_value(s: Seq<char>) -> nat
    decreases s.len(),
{
    if s.len() == 0 {
        0
    } else {
        digits_value(s.drop_last()) * 10 + ((s.last() as u32) - ('0' as u32)) as nat
    }
}

/// Whether every character of `s` is a decimal digit.
pub open spec fn all_decimal_digits(s: Seq<char>) -> bool {
    forall|i: int| 0 <= i < s.len() ==> is_decimal_digit(#[trigger] s[i])
}

/// `s` without one leading plus sign, if it has one.
pub open spec fn unsigned_part(s: Seq<char>) -> Seq<char> {
    if s.len() > 0 && s[0] == '+' {
        s.subrange(1, s.len() as int)
    } else {
        s
    }
}

/// The `u32` that `s` writes in decimal: an optional `+`, then at least one
/// digit and nothing else, with a value that fits. `None` for every other text.
pub open spec fn decimal_u32(s: Seq<char>) -> Option<u32> {
    let d = unsigned_part(s);
    if d.len() > 0 && all_decimal_digits(d) && digits_value(d) <= u32::MAX {
        Some(digits_value(d) as u32)
    } else {
        None
    }
}

/// A run of digits is worth at least as much as any of its prefixes.
proof fn lemma_digits_value_prefix(s: Seq<char>, k: int)
    requires
        0 <= k <= s.len(),
        all_decimal_digits(s),
    ensures
        digits_value(s.take(k)) <= digits_value(s),
    decreases s.len() - k,
{
    if k == s.len() {
        assert(s.take(k) =~= s);
    } else {
        lemma_digits_value_prefix(s, k + 1);
        let t = s.take(k + 1);
        assert(t.drop_last() =~= s.take(k));
    }
}

/// Reads a `u32` written in decimal.
pub fn parse_u32(s: &str) -> (r: Option<u32>)
    ensures
        r == decimal_u32(s@),
{
    if !s.is_ascii() {
        proof {
            let d = unsigned_part(s@);
            if d.len() > 0 && all_decimal_digits(d) {
                assert forall|i: int| 0 <= i < s@.len() implies '\0' <= #[trigger] s@[i]
                    <= '\u{7f}' by {
                    if s@.len() > 0 && s@[0] == '+' {
                        if i > 0 {
                            assert(is_decimal_digit(d[i - 1]));
                        }
                    }
                }
            }
        }
        return None;
    }
    let n = s.unicode_len();
    let mut i: usize = 0;
    if n > 0 && s.get_ascii(0) == 43u8 {
        i = 1;
    }
    let start = i;
    let ghost d = unsigned_part(s@);
    if i == n {
        return None;
    }
    let mut acc: u32 = 0;
    while i < n
        invariant
            start <= i <= n,
            start <= 1,
            n == s@.len(),
            s.is_ascii(),
            d == s@.subrange(start as int, n as int),
            d == unsigned_part(s@),
            d.len() > 0,
            all_decimal_digits(d.take(i - start)),
            acc == digits_value(d.take(i - start)),
        decreases n - i,
    {
        let b = s.get_ascii(i);
        let ghost k = i - start;
        if b < 48u8 || b > 57u8 {
            assert(!is_decimal_digit(d[k]));
            return None;
        }
        let digit: u32 = (b - 48u8) as u32;
        let ghost next = d.take(k + 1);
        proof {
            assert(next.drop_last() =~= d.take(k));
        }
        let grown = match acc.checked_mul(10) {
            Some(m) => m.checked_add(digit),
            None => None,
        };
        match grown {
            Some(v) => {
                acc = v;
            },
            None => {
                proof {
                    if all_decimal_digits(d) {
                        lemma_digits_value_prefix(d, k + 1);
                    }
                }
                return None;
            },
        }
        i += 1;
    }
    proof {
        assert(d.take(i - start) =~= d);
    }
    Some(acc)
}

} // verus!
