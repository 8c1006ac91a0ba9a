use rust_decimal::Decimal;
use vstd::prelude::*;

verus! {

/// Number of fractional decimal digits that every amount carries.
pub const SCALE: u32 = 4;

/// Largest magnitude of a decimal's 96-bit mantissa.
pub const MAX_UNITS: i128 = 0xFFFF_FFFF_FFFF_FFFF_FFFF_FFFF;

/// Whether `v` ten-thousandths can be held by a decimal at scale four.
pub open spec fn in_range(v: int) -> bool {
    -MAX_UNITS <= v <= MAX_UNITS
}

/// Relies on rust_decimal's `Decimal::checked_add` on two decimals of scale four: the
/// exact sum comes back at scale four whenever its mantissa fits in 96 bits; otherwise
/// the result is `None` or has been rounded to a smaller scale.
#[verifier::external_body]
fn decimal_checked_add(a: i128, b: i128) -> (r: Option<(i128, u32)>)
    requires
        in_range(a as int),
        in_range(b as int),
    ensures
        in_range(a + b) ==> r == Some(((a + b) as i128, SCALE)),
        !in_range(a + b) ==> (r matches Some(p) ==> p.1 != SCALE),
{
    Decimal::from_i128_with_scale(a, SCALE)
        .checked_add(Decimal::from_i128_with_scale(b, SCALE))
        .map(|d| (d.mantissa(), d.scale()))
}

/// Relies on rust_decimal's `Decimal::checked_sub` on two decimals of scale four: the
/// exact difference comes back at scale four whenever its mantissa fits in 96 bits;
/// otherwise the result is `None` or has been rounded to a smaller scale.
#[verifier::external_body]
fn decimal_checked_sub(a: i128, b: i128) -> (r: Option<(i128, u32)>)
    requires
        in_range(a as int),
        in_range(b as int),
    ensures
        in_range(a - b) ==> r == Some(((a - b) as i128, SCALE)),
        !in_range(a - b) ==> (r matches Some(p) ==> p.1 != SCALE),
{
    Decimal::from_i128_with_scale(a, SCALE)
        .checked_sub(Decimal::from_i128_with_scale(b, SCALE))
        .map(|d| (d.mantissa(), d.scale()))
}

/// What rust_decimal's `Decimal::from_str` makes of a text, as (mantissa, scale).
pub uninterp spec fn decimal_parse(s: Seq<char>) -> Option<(i128, u32)>;

/// Relies on rust_decimal's `Decimal::from_str` to read a decimal number; a decimal's
/// mantissa has at most 96 bits and its scale is at most 28.
#[verifier::external_body]
pub(crate) fn decimal_from_str(s: &str) -> (r: Option<(i128, u32)>)
    ensures
        r == decimal_parse(s@),
        r matches Some(p) ==> in_range(p.0 as int) && p.1 <= 28,
{
    <Decimal as std::str::FromStr>::from_str(s).ok().map(|d| (d.mantissa(), d.scale()))
}

/// Ten to the power `n`.
pub open spec fn pow10(n: nat) -> int
    decreases n,
{
    if n == 0 {
        1
    } else {
        10 * pow10((n - 1) as nat)
    }
}

/// Powers of ten grow with the exponent.
pub proof fn lemma_pow10_monotonic(a: nat, b: nat)
    requires
        a <= b,
    ensures
        1 <= pow10(a) <= pow10(b),
    decreases b,
{
    if b > 0 {
        let c = (b - 1) as nat;
        if a <= c {
            lemma_pow10_monotonic(a, c);
        } else {
            lemma_pow10_monotonic(c, c);
        }
    }
}

/// Ten to the power `n`, for the exponents a decimal's scale can take.
pub(crate) fn pow10_exec(n: u32) -> (r: i128)
    requires
        n <= 28,
    ensures
        r == pow10(n as nat),
{
    proof {
        reveal_with_fuel(pow10, 29);
        assert(pow10(28) == 10000000000000000000000000000);
    }
    let mut r: i128 = 1;
    let mut i: u32 = 0;
    while i < n
        invariant
            i <= n <= 28,
            r == pow10(i as nat),
            pow10(28) == 10000000000000000000000000000,
        decreases n - i,
    {
        proof {
            lemma_pow10_monotonic((i + 1) as nat, 28);
        }
        r = r * 10;
        i = i + 1;
    }
    r
}

/// The sum of two amounts, when it and both operands can be held by a decimal.
pub open spec fn add_spec(a: Amount, b: Amount) -> Option<Amount> {
    if in_range(a.value()) && in_range(b.value()) && in_range(a.value() + b.value()) {
        Some(Amount { units: (a.value() + b.value()) as i128 })
    } else {
        None
    }
}

/// The difference of two amounts, when it and both operands can be held by a decimal.
pub open spec fn sub_spec(a: Amount, b: Amount) -> Option<Amount> {
    if in_range(a.value()) && in_range(b.value()) && in_range(a.value() - b.value()) {
        Some(Amount { units: (a.value() - b.value()) as i128 })
    } else {
        None
    }
}

/// An exact monetary amount, counted in ten-thousandths.
#[derive(Debug, Clone, Copy, PartialEq, Eq, Structural)]
pub struct Amount {
    pub units: i128,
}

impl Amount {
    /// The amount as a number of ten-thousandths.
    pub open spec fn value(self) -> int {
        self.units as int
    }

    /// The amount `num` times ten to the power `-scale`; `None` where that needs more
    /// than four fractional digits.
    pub fn new(num: i64, scale: u32) -> (r: Option<Amount>)
        ensures
            r is Some <==> scale <= SCALE,
            r matches Some(a) ==> a.value() == num * pow10((SCALE - scale) as nat),
    {
        if scale > SCALE {
            return None;
        }
        let f = pow10_exec(SCALE - scale);
        proof {
            lemma_pow10_monotonic((SCALE - scale) as nat, 4);
            reveal_with_fuel(pow10, 5);
            assert(num * f <= 0x7fff_ffff_ffff_ffff * 10000) by (nonlinear_arith)
                requires
                    num <= 0x7fff_ffff_ffff_ffff,
                    1 <= f <= 10000,
            ;
            assert(num * f >= -0x8000_0000_0000_0000 * 10000) by (nonlinear_arith)
                requires
                    num >= -0x8000_0000_0000_0000,
                    1 <= f <= 10000,
            ;
        }
        Some(Amount { units: num as i128 * f })
    }

    /// The amount zero.
    pub fn zero() -> (r: Amount)
        ensures
            r.value() == 0,
    {
        Amount { units: 0 }
    }

    /// The amount as a number of ten-thousandths.
    pub fn units(&self) -> (r: i128)
        ensures
            r == self.value(),
    {
        self.units
    }

    /// Whether the amount is below zero.
    pub fn is_negative(&self) -> (r: bool)
        ensures
            r == (self.value() < 0),
    {
        self.units < 0
    }

    /// The sum, when it and both operands can be held by a decimal.
    pub fn checked_add(self, other: Amount) -> (r: Option<Amount>)
        ensures
            r == add_spec(self, other),
    {
        if self.units < -MAX_UNITS || self.units > MAX_UNITS || other.units < -MAX_UNITS
            || other.units > MAX_UNITS {
            return None;
        }
        match decimal_checked_add(self.units, other.units) {
            Some(p) => {
                if p.1 == SCALE {
                    Some(Amount { units: p.0 })
                } else {
                    None
                }
            },
            None => None,
        }
    }

    /// The difference, when it and both operands can be held by a decimal.
    pub fn checked_sub(self, other: Amount) -> (r: Option<Amount>)
        ensures
            r == sub_spec(self, other),
    {
        if self.units < -MAX_UNITS || self.units > MAX_UNITS || other.units < -MAX_UNITS
            || other.units > MAX_UNITS {
            return None;
        }
        match decimal_checked_sub(self.units, other.units) {
            Some(p) => {
                if p.1 == SCALE {
                    Some(Amount { units: p.0 })
                } else {
                    None
                }
            },
            None => None,
        }
    }
}

} // verus!
