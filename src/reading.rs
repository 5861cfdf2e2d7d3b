//! Exact decimal quantities: what a device reports, and what a sample carries.
use vstd::prelude::*;

verus! {

/// `10` raised to `n`.
pub open spec fn pow10(n: nat) -> int
    decreases n,
{
    if n == 0 {
        1
    } else {
        10 * pow10((n - 1) as nat)
    }
}

pub open spec fn is_digit(c: char) -> bool {
    '0' <= c && c <= '9'
}

pub open spec fn digit_value(c: char) -> int {
    c as int - '0' as int
}

/// The digits of `s` read as one integer, skipping a decimal point.
pub open spec fn digits_value(s: Seq<char>) -> int
    decreases s.len(),
{
    if s.len() == 0 {
        0
    } else if s.last() == '.' {
        digits_value(s.drop_last())
    } else {
        digits_value(s.drop_last()) * 10 + digit_value(s.last())
    }
}

/// How many decimal points `s` holds.
pub open spec fn point_count(s: Seq<char>) -> nat
    decreases s.len(),
{
    if s.len() == 0 {
        0
    } else if s.last() == '.' {
        point_count(s.drop_last()) + 1
    } else {
        point_count(s.drop_last())
    }
}

/// How many digits follow the first decimal point of `s` (none without one).
pub open spec fn fraction_len(s: Seq<char>) -> nat
    decreases s.len(),
{
    if s.len() == 0 {
        0
    } else if s.last() == '.' {
        0
    } else if point_count(s.drop_last()) > 0 {
        fraction_len(s.drop_last()) + 1
    } else {
        0
    }
}

/// An unsigned decimal numeral: digits with at most one decimal point,
/// beginning and ending with a digit (`"12"`, `"0.06"`).
pub open spec fn is_unsigned_numeral(s: Seq<char>) -> bool {
    &&& s.len() > 0
    &&& forall|i: int| 0 <= i < s.len() ==> is_digit(#[trigger] s[i]) || s[i] == '.'
    &&& point_count(s) <= 1
    &&& is_digit(s[0])
    &&& is_digit(s.last())
}

/// A numeral, optionally preceded by a minus sign.
pub open spec fn is_numeral(s: Seq<char>) -> bool {
    if s.len() > 0 && s[0] == '-' {
        is_unsigned_numeral(s.drop_first())
    } else {
        is_unsigned_numeral(s)
    }
}

/// The numeral without its sign.
pub open spec fn magnitude_text(s: Seq<char>) -> Seq<char> {
    if s.len() > 0 && s[0] == '-' {
        s.drop_first()
    } else {
        s
    }
}

/// The reading that the text `s` denotes: `None` where `s` is no numeral, or
/// where its digits or its decimal places do not fit a `Reading`.
pub open spec fn reading_of_text(s: Seq<char>) -> Option<Reading> {
    let m = magnitude_text(s);
    if is_numeral(s) && digits_value(m) <= i64::MAX && fraction_len(m) <= u32::MAX {
        Some(
            Reading {
                mantissa: (if s[0] == '-' {
                    -digits_value(m)
                } else {
                    digits_value(m)
                }) as i64,
                scale: fraction_len(m) as u32,
            },
        )
    } else {
        None
    }
}

/// A decimal value as a device reports it: `mantissa / 10^scale`.
#[derive(Clone, Copy, Debug, PartialEq, Eq, Structural)]
pub struct Reading {
    pub mantissa: i64,
    pub scale: u32,
}

/// A decimal value that a sample carries: `mantissa / 10^scale`.
#[derive(Clone, Copy, Debug, PartialEq, Eq, Structural)]
pub struct Quantity {
    pub mantissa: i128,
    pub scale: u64,
}

/// kWh to joules: `kwh * 1000 * 3600`, exactly.
pub open spec fn joules_from_kwh(r: Reading) -> Quantity {
    Quantity { mantissa: (r.mantissa * 1000 * 3600) as i128, scale: r.scale as u64 }
}

/// Litres per minute to the sample's rate: `lpm * 60 / 1000`, exactly.
pub open spec fn rate_from_lpm(r: Reading) -> Quantity {
    Quantity { mantissa: (r.mantissa * 60) as i128, scale: (r.scale + 3) as u64 }
}

/// The reading's value, unscaled.
pub open spec fn unscaled(r: Reading) -> Quantity {
    Quantity { mantissa: r.mantissa as i128, scale: r.scale as u64 }
}

/// Converting kWh to joules multiplies the value by exactly 1000 * 3600:
/// `q.mantissa / 10^q.scale == (r.mantissa / 10^r.scale) * 1000 * 3600`.
pub proof fn lemma_joules_from_kwh_exact(r: Reading)
    ensures
        joules_from_kwh(r).mantissa * pow10(r.scale as nat) == r.mantissa * 1000 * 3600 * pow10(
            joules_from_kwh(r).scale as nat,
        ),
{
}

/// Converting litres per minute multiplies the value by exactly 60 / 1000:
/// `q.mantissa / 10^q.scale == (r.mantissa / 10^r.scale) * 60 / 1000`.
pub proof fn lemma_rate_from_lpm_exact(r: Reading)
    ensures
        rate_from_lpm(r).mantissa * 1000 * pow10(r.scale as nat) == r.mantissa * 60 * pow10(
            rate_from_lpm(r).scale as nat,
        ),
{
    let s = r.scale as nat;
    assert(pow10(s + 3) == 1000 * pow10(s)) by {
        assert(pow10((s + 1) as nat) == 10 * pow10(s));
        assert(pow10((s + 2) as nat) == 10 * pow10((s + 1) as nat));
        assert(pow10((s + 3) as nat) == 10 * pow10((s + 2) as nat));
    }
    assert(rate_from_lpm(r).scale as nat == s + 3);
    let m = r.mantissa as int;
    let p = pow10(s);
    assert(m * 60 * 1000 * p == m * 60 * (1000 * p)) by (nonlinear_arith);
}

proof fn lemma_digits_value_nonneg(s: Seq<char>)
    requires
        forall|i: int| 0 <= i < s.len() ==> is_digit(#[trigger] s[i]) || s[i] == '.',
    ensures
        digits_value(s) >= 0,
    decreases s.len(),
{
    if s.len() > 0 {
        let t = s.drop_last();
        assert forall|i: int| 0 <= i < t.len() implies is_digit(#[trigger] t[i]) || t[i] == '.' by {
            assert(t[i] == s[i]);
        }
        lemma_digits_value_nonneg(t);
    }
}

impl Reading {
    /// Reads a decimal numeral such as `"-12.5"`: an optional minus sign, then
    /// digits with at most one decimal point between two digits.
    pub fn parse(text: &str) -> (r: Option<Reading>)
        ensures
            r == reading_of_text(text@),
    {
        broadcast use vstd::string::is_ascii_spec_bytes;

        if !text.is_ascii() {
            proof {
                lemma_non_ascii_is_no_numeral(text@);
            }
            return None;
        }
        let bytes = text.as_bytes();
        let n = bytes.len();
        let ghost s = text@;
        assert(bytes@.len() == s.len());
        assert(forall|j: int| 0 <= j < n ==> (#[trigger] s[j] as int) < 128);
        assert(forall|j: int| 0 <= j < n ==> #[trigger] bytes@[j] as int == s[j] as int);
        if n == 0 {
            return None;
        }
        let negative = bytes[0] == 45u8;
        let start: usize = if negative { 1 } else { 0 };
        let ghost m = magnitude_text(s);
        proof {
            assert(negative == (s[0] == '-'));
            if negative {
                assert(m =~= s.subrange(1, s.len() as int));
            } else {
                assert(m =~= s.subrange(0, s.len() as int));
            }
        }
        if start == n {
            return None;
        }
        let mut value: i64 = 0;
        let mut too_large = false;
        let mut points: usize = 0;
        let mut fraction: usize = 0;
        let mut valid = true;
        let mut i: usize = start;
        while i < n
            invariant
                start <= i <= n,
                n == bytes@.len(),
                n == s.len(),
                s == text@,
                forall|j: int| 0 <= j < n ==> #[trigger] bytes@[j] as int == s[j] as int,
                forall|j: int| 0 <= j < n ==> (#[trigger] s[j] as int) < 128,
                m == s.subrange(start as int, n as int),
                ({
                    let p = s.subrange(start as int, i as int);
                    &&& valid == (forall|j: int| 0 <= j < p.len() ==> is_digit(#[trigger] p[j]) || p[j] == '.')
                    &&& points == point_count(p)
                    &&& (valid ==> fraction == fraction_len(p))
                    &&& fraction <= i - start
                    &&& points <= i - start
                    &&& (valid && !too_large ==> value == digits_value(p))
                    &&& (valid ==> (too_large <==> digits_value(p) > i64::MAX))
                    &&& value >= 0
                }),
            decreases n - i,
        {
            let ghost p = s.subrange(start as int, i as int);
            let ghost q = s.subrange(start as int, i + 1);
            assert(q.drop_last() =~= p);
            let b = bytes[i];
            assert(b as int == s[i as int] as int);
            if b == 46u8 {
                assert(s[i as int] == '.');
                points = points + 1;
                fraction = 0;
            } else if 48u8 <= b && b <= 57u8 {
                assert(is_digit(s[i as int]));
                assert(digit_value(s[i as int]) == (b - 48u8) as int);
                if points > 0 {
                    fraction = fraction + 1;
                }
                if valid {
                    proof {
                        lemma_digits_value_nonneg(p);
                    }
                    let d = (b - 48u8) as i64;
                    if too_large || value > (i64::MAX - d) / 10 {
                        too_large = true;
                    } else {
                        assert(value * 10 + d <= i64::MAX) by (nonlinear_arith)
                            requires
                                value <= (i64::MAX - d) / 10,
                                0 <= d <= 9,
                        ;
                        value = value * 10 + d;
                    }
                }
            } else {
                assert(!is_digit(q[q.len() - 1]) && q[q.len() - 1] != '.');
                valid = false;
            }
            i = i + 1;
        }
        let ghost p = s.subrange(start as int, n as int);
        assert(p =~= m);
        if !valid || points > 1 || !(48u8 <= bytes[start] && bytes[start] <= 57u8) || !(48u8
            <= bytes[n - 1] && bytes[n - 1] <= 57u8) || too_large || fraction > u32::MAX as usize {
            proof {
                assert(m[0] == s[start as int]);
                assert(m.last() == s[n - 1]);
            }
            return None;
        }
        proof {
            assert(m[0] == s[start as int]);
            assert(m.last() == s[n - 1]);
        }
        let mantissa = if negative { -value } else { value };
        Some(Reading { mantissa, scale: fraction as u32 })
    }
}

proof fn lemma_non_ascii_is_no_numeral(s: Seq<char>)
    requires
        !vstd::utf8::is_ascii_chars(s),
    ensures
        reading_of_text(s) is None,
{
    let m = magnitude_text(s);
    if is_numeral(s) {
        assert forall|i: int| 0 <= i < s.len() implies '\0' <= #[trigger] s[i] <= '\u{7f}' by {
            if s.len() > 0 && s[0] == '-' {
                if i > 0 {
                    assert(s[i] == m[i - 1]);
                    assert(is_digit(m[i - 1]) || m[i - 1] == '.');
                }
            } else {
                assert(is_digit(m[i]) || m[i] == '.');
            }
        }
    }
}

} // verus!
