//! Parsing of the non-negative integer literals that declare tag ids:
//! decimal, or hexadecimal with a `0x`/`0X` prefix.

use vstd::prelude::*;

verus! {

/// Whether `c` is a digit of the given base (10 or 16; hexadecimal accepts
/// both letter cases).
pub open spec fn is_digit(c: char, base: int) -> bool {
    ||| '0' as u32 <= c as u32 && c as u32 <= '9' as u32
    ||| base == 16 && 'a' as u32 <= c as u32 && c as u32 <= 'f' as u32
    ||| base == 16 && 'A' as u32 <= c as u32 && c as u32 <= 'F' as u32
}

/// The numeric value of a digit character (0 for non-digits).
pub open spec fn digit_val(c: char) -> int {
    if '0' as u32 <= c as u32 && c as u32 <= '9' as u32 {
        c as u32 - '0' as u32
    } else if 'a' as u32 <= c as u32 && c as u32 <= 'f' as u32 {
        c as u32 - 'a' as u32 + 10
    } else if 'A' as u32 <= c as u32 && c as u32 <= 'F' as u32 {
        c as u32 - 'A' as u32 + 10
    } else {
        0
    }
}

/// Whether every character of `s` is a digit of the given base.
pub open spec fn all_digits(s: Seq<char>, base: int) -> bool {
    forall|i: int| 0 <= i < s.len() ==> is_digit(s[i], base)
}

/// The value of a digit string read in the given base.
pub open spec fn digits_val(s: Seq<char>, base: int) -> int
    decreases s.len(),
{
    if s.len() == 0 {
        0
    } else {
        digits_val(s.drop_last(), base) * base + digit_val(s.last())
    }
}

/// The value of a non-empty digit string in the given base, provided every
/// character is a digit and the value fits in 64 bits.
pub open spec fn parse_digits_spec(s: Seq<char>, base: int) -> Option<u64> {
    if s.len() > 0 && all_digits(s, base) && digits_val(s, base) <= u64::MAX {
        Some(digits_val(s, base) as u64)
    } else {
        None
    }
}

/// The value of an integer literal: hexadecimal after a `0x`/`0X` prefix,
/// decimal otherwise.  `None` when the literal is malformed or exceeds the
/// 64-bit range.
pub open spec fn parse_u64_spec(s: Seq<char>) -> Option<u64> {
    if s.len() >= 2 && s[0] == '0' && (s[1] == 'x' || s[1] == 'X') {
        parse_digits_spec(s.subrange(2, s.len() as int), 16)
    } else {
        parse_digits_spec(s, 10)
    }
}

proof fn lemma_digits_val_nonneg(s: Seq<char>, base: int)
    requires
        base >= 1,
    ensures
        digits_val(s, base) >= 0,
    decreases s.len(),
{
    if s.len() > 0 {
        lemma_digits_val_nonneg(s.drop_last(), base);
        assert(digit_val(s.last()) >= 0);
        assert(digits_val(s.drop_last(), base) * base >= 0) by (nonlinear_arith)
            requires
                digits_val(s.drop_last(), base) >= 0,
                base >= 1,
        ;
    }
}

/// The value of a digit character, or `None` when `c` is not a digit of the
/// requested base.
fn digit_value(c: char, hex: bool) -> (r: Option<u64>)
    ensures
        ({
            let base: int = if hex { 16 } else { 10 };
            match r {
                Some(v) => is_digit(c, base) && v == digit_val(c),
                None => !is_digit(c, base),
            }
        }),
{
    let u: u32 = c as u32;
    if 48 <= u && u <= 57 {
        Some((u - 48) as u64)
    } else if hex && 97 <= u && u <= 102 {
        Some((u - 97 + 10) as u64)
    } else if hex && 65 <= u && u <= 70 {
        Some((u - 65 + 10) as u64)
    } else {
        None
    }
}

/// Reads the digit region of `s` starting at `start` in the given base.
fn parse_digits(s: &str, start: usize, hex: bool) -> (r: Option<u64>)
    requires
        start <= s@.len(),
    ensures
        r == parse_digits_spec(
            s@.subrange(start as int, s@.len() as int),
            if hex { 16 } else { 10 },
        ),
{
    let ghost base: int = if hex { 16 } else { 10 };
    let ghost region = s@.subrange(start as int, s@.len() as int);
    let n = s.unicode_len();
    if start == n {
        return None;
    }
    let mut i: usize = start;
    let mut acc: u64 = 0;
    let mut overflow = false;
    while i < n
        invariant
            n == s@.len(),
            start <= i <= n,
            base == if hex { 16int } else { 10int },
            region == s@.subrange(start as int, s@.len() as int),
            forall|j: int| 0 <= j < i - start ==> is_digit(region[j], base),
            !overflow ==> acc == digits_val(region.subrange(0, i - start), base),
            overflow ==> digits_val(region.subrange(0, i - start), base) > u64::MAX,
        decreases n - i,
    {
        let c = s.get_char(i);
        proof {
            assert(region[i - start] == s@[i as int]);
        }
        let d: u64 = match digit_value(c, hex) {
            Some(d) => d,
            None => {
                proof {
                    assert(!is_digit(region[i - start], base));
                }
                return None;
            },
        };
        let ghost prefix = region.subrange(0, i - start);
        let ghost prefix1 = region.subrange(0, i + 1 - start);
        proof {
            assert(prefix1.drop_last() =~= prefix);
            assert(prefix1.last() == region[i - start]);
            assert(digits_val(prefix1, base) == digits_val(prefix, base) * base + digit_val(c));
        }
        if overflow {
            proof {
                lemma_digits_val_nonneg(prefix, base);
                assert(digits_val(prefix, base) * base >= digits_val(prefix, base))
                    by (nonlinear_arith)
                    requires
                        digits_val(prefix, base) >= 0,
                        base >= 1,
                ;
                assert(digit_val(c) >= 0);
            }
        } else {
            let b: u128 = if hex { 16 } else { 10 };
            let wide: u128 = (acc as u128) * b + (d as u128);
            proof {
                assert(wide == digits_val(prefix1, base));
            }
            if wide > u64::MAX as u128 {
                overflow = true;
            } else {
                acc = wide as u64;
            }
        }
        i = i + 1;
    }
    proof {
        assert(region.subrange(0, n - start) =~= region);
        assert(region.len() > 0);
    }
    if overflow {
        None
    } else {
        Some(acc)
    }
}

/// Parses a tag-id integer literal: decimal, or hexadecimal after `0x`/`0X`.
/// Returns `None` when the text is not such a literal or its value does not
/// fit in 64 bits.
pub fn parse_u64(s: &str) -> (r: Option<u64>)
    ensures
        r == parse_u64_spec(s@),
{
    let n = s.unicode_len();
    if n >= 2 && s.get_char(0) == '0' {
        let c1 = s.get_char(1);
        if c1 == 'x' || c1 == 'X' {
            return parse_digits(s, 2, true);
        }
    }
    proof {
        assert(s@.subrange(0, s@.len() as int) =~= s@);
    }
    parse_digits(s, 0, false)
}

} // verus!
