//! Parsing of the upstream service's numbers-as-strings: machine integers
//! and exact decimals, with a precise grammar.

use vstd::prelude::*;
use vstd::string::*;
use crate::model::{pow10, Decimal};

verus! {

/// Whether `c` is a decimal digit.
pub open spec fn is_digit(c: char) -> bool {
    48 <= c as u32 <= 57
}

/// Whether `s` consists of decimal digits only.
pub open spec fn all_digits(s: Seq<char>) -> bool {
    forall|i: int| 0 <= i < s.len() ==> is_digit(#[trigger] s[i])
}

/// The numeric value of a digit string, read left to right.
pub open spec fn digits_val(s: Seq<char>) -> int
    decreases s.len(),
{
    if s.len() == 0 {
        0
    } else {
        digits_val(s.drop_last()) * 10 + (s.last() as u32 - 48)
    }
}

/// A digit string's value is non-negative and below ten to its length.
pub proof fn lemma_digits_val_bounds(s: Seq<char>)
    requires
        all_digits(s),
    ensures
        0 <= digits_val(s) < pow10(s.len() as nat),
    decreases s.len(),
{
    if s.len() == 0 {
    } else {
        assert(all_digits(s.drop_last())) by {
            assert(forall|i: int| 0 <= i < s.len() - 1 ==> s.drop_last()[i] == #[trigger] s[i]);
        }
        lemma_digits_val_bounds(s.drop_last());
        assert(is_digit(s.last()));
        assert(pow10(s.len() as nat) == 10 * pow10((s.len() - 1) as nat));
    }
}

/// Reading more digits never shrinks the value.
pub proof fn lemma_digits_val_prefix(s: Seq<char>, i: int)
    requires
        all_digits(s),
        0 <= i <= s.len(),
    ensures
        digits_val(s.take(i)) <= digits_val(s),
    decreases s.len() - i,
{
    if i == s.len() {
        assert(s.take(i) =~= s);
    } else {
        lemma_digits_val_prefix(s, i + 1);
        let t = s.take(i + 1);
        assert(t.drop_last() =~= s.take(i));
        assert(t.last() == s[i]);
        assert(is_digit(s[i]));
        assert(all_digits(s.take(i))) by {
            assert(forall|k: int| 0 <= k < i ==> s.take(i)[k] == #[trigger] s[k]);
        }
        lemma_digits_val_bounds(s.take(i));
        assert(digits_val(t) == digits_val(s.take(i)) * 10 + (s[i] as u32 - 48));
        assert(digits_val(s.take(i)) <= digits_val(t));
    }
}

/// Read a whole string of digits as a number, refusing an empty string, a
/// non-digit, or a value above `max`.
pub fn parse_all_digits(s: &str, max: u64) -> (r: Option<u64>)
    requires
        max <= 0xFFFF_FFFFu64,
    ensures
        r is Some <==> s@.len() >= 1 && all_digits(s@) && digits_val(s@) <= max,
        r is Some ==> r->0 == digits_val(s@),
{
    let len = s.unicode_len();
    if len == 0 {
        return None;
    }
    let mut acc: u64 = 0;
    let mut i: usize = 0;
    while i < len
        invariant
            i <= len,
            len == s@.len(),
            all_digits(s@.take(i as int)),
            acc == digits_val(s@.take(i as int)),
            acc <= max,
            max <= 0xFFFF_FFFFu64,
        decreases len - i,
    {
        let c = s.get_char(i);
        let u = c as u32;
        if u < 48 || u > 57 {
            proof {
                assert(!is_digit(s@[i as int]));
            }
            return None;
        }
        let d: u64 = (u - 48) as u64;
        let next: u64 = acc * 10 + d;
        proof {
            assert(s@.take(i as int + 1).drop_last() =~= s@.take(i as int));
            assert(s@.take(i as int + 1).last() == s@[i as int]);
            assert(all_digits(s@.take(i as int + 1))) by {
                assert(forall|k: int|
                    0 <= k < i ==> s@.take(i as int + 1)[k] == s@.take(i as int)[k]);
            }
        }
        if next > max {
            proof {
                if all_digits(s@) {
                    lemma_digits_val_prefix(s@, i as int + 1);
                }
            }
            return None;
        }
        acc = next;
        i = i + 1;
    }
    proof {
        assert(s@.take(len as int) =~= s@);
    }
    Some(acc)
}

/// The grammar of a signed machine integer: an optional minus sign, then
/// one or more digits, the value in range.
pub open spec fn parse_i32_spec(s: Seq<char>) -> Option<int> {
    if s.len() >= 1 && s[0] == '-' {
        let d = s.drop_first();
        if d.len() >= 1 && all_digits(d) && digits_val(d) <= 2147483648 {
            Some(-digits_val(d))
        } else {
            None
        }
    } else if s.len() >= 1 && all_digits(s) && digits_val(s) <= 2147483647 {
        Some(digits_val(s))
    } else {
        None
    }
}

/// Parse a signed machine integer from its digit string.
pub fn parse_i32(s: &str) -> (r: Option<i32>)
    ensures
        r is Some <==> parse_i32_spec(s@) is Some,
        r is Some ==> parse_i32_spec(s@) == Some(r->0 as int),
{
    let len = s.unicode_len();
    if len == 0 {
        return None;
    }
    let first = s.get_char(0);
    if first == '-' {
        let rest = s.substring_char(1, len);
        proof {
            assert(rest@ =~= s@.drop_first());
        }
        match parse_all_digits(rest, 2147483648u64) {
            Some(v) => {
                if v == 2147483648u64 {
                    Some(i32::MIN)
                } else {
                    Some(-(v as i32))
                }
            },
            None => None,
        }
    } else {
        match parse_all_digits(s, 2147483647u64) {
            Some(v) => Some(v as i32),
            None => None,
        }
    }
}

/// The first position of `c` in `s`, or the length when `c` is absent.
pub open spec fn first_idx(s: Seq<char>, c: char) -> int
    decreases s.len(),
{
    if s.len() == 0 {
        0
    } else if s[0] == c {
        0
    } else {
        1 + first_idx(s.drop_first(), c)
    }
}

proof fn lemma_first_idx(s: Seq<char>, c: char, j: int)
    requires
        0 <= j <= s.len(),
        forall|k: int| 0 <= k < j ==> s[k] != c,
        j < s.len() ==> s[j] == c,
    ensures
        first_idx(s, c) == j,
    decreases j,
{
    if s.len() == 0 {
    } else if j == 0 {
    } else {
        let tail = s.drop_first();
        assert(forall|k: int| 0 <= k < tail.len() ==> #[trigger] tail[k] == s[k + 1]);
        lemma_first_idx(tail, c, j - 1);
    }
}

/// The grammar of a credit-point decimal: digits, optionally followed by a
/// dot and one to nine fraction digits, the integer part in range.
pub open spec fn parse_decimal_spec(s: Seq<char>) -> Option<Decimal> {
    let i = first_idx(s, '.');
    if i == s.len() {
        if s.len() >= 1 && all_digits(s) && digits_val(s) <= u32::MAX {
            Some(Decimal { int_part: digits_val(s) as u32, frac: 0, frac_len: 0 })
        } else {
            None
        }
    } else {
        let ip = s.take(i);
        let fp = s.skip(i + 1);
        if ip.len() >= 1 && fp.len() >= 1 && fp.len() <= 9 && all_digits(ip) && all_digits(fp)
            && digits_val(ip) <= u32::MAX {
            Some(Decimal {
                int_part: digits_val(ip) as u32,
                frac: digits_val(fp) as u32,
                frac_len: fp.len() as u32,
            })
        } else {
            None
        }
    }
}

/// A parsed decimal is well formed: its fraction has no more digits than
/// its digit count allows.
pub proof fn lemma_parse_decimal_wf(s: Seq<char>)
    ensures
        parse_decimal_spec(s) is Some ==> parse_decimal_spec(s)->0.wf(),
{
    let i = first_idx(s, '.');
    if parse_decimal_spec(s) is Some {
        if i == s.len() {
            assert(pow10(0) == 1);
        } else {
            let fp = s.skip(i + 1);
            lemma_digits_val_bounds(fp);
        }
    }
}

/// The position of the first dot, or the length when there is none.
fn find_dot(s: &str) -> (r: usize)
    ensures
        r as int == first_idx(s@, '.'),
        r <= s@.len(),
        r < s@.len() ==> s@[r as int] == '.',
{
    let len = s.unicode_len();
    let mut i: usize = 0;
    while i < len
        invariant
            i <= len,
            len == s@.len(),
            forall|k: int| 0 <= k < i ==> s@[k] != '.',
        decreases len - i,
    {
        if s.get_char(i) == '.' {
            proof {
                lemma_first_idx(s@, '.', i as int);
            }
            return i;
        }
        i = i + 1;
    }
    proof {
        lemma_first_idx(s@, '.', len as int);
    }
    len
}

/// Parse a credit-point decimal from its string form.
pub fn parse_decimal(s: &str) -> (r: Option<Decimal>)
    ensures
        r is Some <==> parse_decimal_spec(s@) is Some,
        r is Some ==> parse_decimal_spec(s@) == Some(r->0),
        r is Some ==> r->0.wf(),
{
    proof {
        lemma_parse_decimal_wf(s@);
    }
    let len = s.unicode_len();
    let dot = find_dot(s);
    if dot == len {
        match parse_all_digits(s, 0xFFFF_FFFFu64) {
            Some(v) => Some(Decimal { int_part: v as u32, frac: 0, frac_len: 0 }),
            None => None,
        }
    } else {
        let ip_str = s.substring_char(0, dot);
        let fp_str = s.substring_char(dot + 1, len);
        proof {
            assert(ip_str@ =~= s@.take(first_idx(s@, '.')));
            assert(fp_str@ =~= s@.skip(first_idx(s@, '.') + 1));
        }
        let ip = match parse_all_digits(ip_str, 0xFFFF_FFFFu64) {
            Some(v) => v,
            None => {
                return None;
            },
        };
        let fp_len = fp_str.unicode_len();
        if fp_len == 0 || fp_len > 9 {
            return None;
        }
        match parse_all_digits(fp_str, 0xFFFF_FFFFu64) {
            Some(v) => {
                Some(Decimal { int_part: ip as u32, frac: v as u32, frac_len: fp_len as u32 })
            },
            None => {
                proof {
                    if all_digits(fp_str@) {
                        lemma_digits_val_bounds(fp_str@);
                        assert(pow10(9) < 0xFFFF_FFFFu64) by {
                            reveal_with_fuel(pow10, 10);
                        }
                        lemma_pow10_mono(fp_str@.len() as nat, 9);
                    }
                }
                None
            },
        }
    }
}

/// Ten-to-the-power grows with its exponent.
pub proof fn lemma_pow10_mono(a: nat, b: nat)
    requires
        a <= b,
    ensures
        pow10(a) <= pow10(b),
    decreases b,
{
    if a < b {
        lemma_pow10_mono(a, (b - 1) as nat);
        assert(pow10(b) == 10 * pow10((b - 1) as nat));
    }
}

} // verus!
