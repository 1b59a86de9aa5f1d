use vstd::prelude::*;

use crate::error::LedgerError;

verus! {

/// The largest magnitude, in ten-thousandths, that a monetary amount holds:
/// the largest mantissa of a 96-bit decimal. With four fractional digits
/// fixed, amounts thus reach about 7.9e24, not the 7.9e28 that a decimal
/// with a free scale reaches.
pub const MAX_UNITS: i128 = 79228162514264337593543950335;

/// Whether `v` ten-thousandths lie within the range of a monetary amount.
pub open spec fn fits(v: int) -> bool {
    -(MAX_UNITS as int) <= v <= MAX_UNITS as int
}

/// Ten to the power `n`.
pub open spec fn pow10(n: nat) -> int
    decreases n,
{
    if n == 0 {
        1
    } else {
        10 * pow10((n - 1) as nat)
    }
}

/// The mantissa and scale of the decimal that rust_decimal reads from `s`,
/// or `None` where it reads none.
pub uninterp spec fn decimal_of(s: Seq<char>) -> Option<(i128, u32)>;

/// The amount, in ten-thousandths, of a decimal with the given mantissa and
/// scale, where it fits. Fractional digits beyond the fourth are accepted
/// only as trailing zeros, which are dropped.
pub open spec fn units_of_parts(mantissa: int, scale: nat) -> Option<int>
    decreases scale,
{
    if scale <= 4 {
        if fits(mantissa * pow10((4 - scale) as nat)) {
            Some(mantissa * pow10((4 - scale) as nat))
        } else {
            None
        }
    } else if mantissa % 10 == 0 {
        units_of_parts(mantissa / 10, (scale - 1) as nat)
    } else {
        None
    }
}

/// The amount, in ten-thousandths, that the text `s` denotes.
pub open spec fn units_of_text(s: Seq<char>) -> Option<int> {
    match decimal_of(s) {
        Some((m, scale)) => units_of_parts(m as int, scale as nat),
        None => None,
    }
}

/// The character of the decimal digit `d`.
pub open spec fn digit_char(d: int) -> char {
    if d == 0 {
        '0'
    } else if d == 1 {
        '1'
    } else if d == 2 {
        '2'
    } else if d == 3 {
        '3'
    } else if d == 4 {
        '4'
    } else if d == 5 {
        '5'
    } else if d == 6 {
        '6'
    } else if d == 7 {
        '7'
    } else if d == 8 {
        '8'
    } else {
        '9'
    }
}

/// The decimal digits of `n`, without leading zeros ("0" for zero).
pub open spec fn digits_of(n: nat) -> Seq<char>
    decreases n,
{
    if n < 10 {
        seq![digit_char(n as int)]
    } else {
        digits_of(n / 10).push(digit_char((n % 10) as int))
    }
}

/// The text of `units` ten-thousandths: a minus sign for a negative amount,
/// the integer digits, a point and exactly four fractional digits.
pub open spec fn canonical_text(units: int) -> Seq<char> {
    let m = if units < 0 { -units } else { units };
    let frac = m % 10000;
    let sign = if units < 0 { seq!['-'] } else { Seq::<char>::empty() };
    sign + digits_of((m / 10000) as nat) + seq![
        '.',
        digit_char(frac / 1000),
        digit_char((frac / 100) % 10),
        digit_char((frac / 10) % 10),
        digit_char(frac % 10),
    ]
}

/// Relies on rust_decimal's `Decimal::from_str`, `Decimal::mantissa` and
/// `Decimal::scale`: the parts of the decimal read from `s`. A mantissa is
/// held in three 32-bit words.
#[verifier::external_body]
fn parse_decimal(s: &str) -> (r: Option<(i128, u32)>)
    ensures
        r == decimal_of(s@),
        r matches Some((m, _)) ==> fits(m as int),
{
    match s.parse::<rust_decimal::Decimal>() {
        Ok(d) => Some((d.mantissa(), d.scale())),
        Err(_) => None,
    }
}

/// Relies on rust_decimal's `Decimal::from_i128_with_scale` and its
/// `Display` with a precision of four: the amount rendered with four
/// fractional digits.
#[verifier::external_body]
fn render_four_places(units: i128) -> (r: String)
    requires
        fits(units as int),
    ensures
        r@ == canonical_text(units as int),
{
    format!("{:.4}", rust_decimal::Decimal::from_i128_with_scale(units, 4))
}

/// An exact decimal amount of money with four fractional digits.
#[derive(Debug, Clone, Copy, PartialEq, Eq, Structural)]
pub struct MonetaryAmount {
    units: i128,
}

impl View for MonetaryAmount {
    type V = int;

    /// The amount in ten-thousandths.
    closed spec fn view(&self) -> int {
        self.units as int
    }
}

impl MonetaryAmount {
    /// Whether the amount lies within range.
    pub open spec fn wf(self) -> bool {
        fits(self@)
    }

    /// Zero.
    pub fn zero() -> (r: Self)
        ensures
            r@ == 0,
            r.wf(),
    {
        MonetaryAmount { units: 0 }
    }

    /// The amount of `units` ten-thousandths.
    pub fn from_units(units: i128) -> (r: Self)
        requires
            fits(units as int),
        ensures
            r@ == units,
            r.wf(),
    {
        MonetaryAmount { units }
    }

    /// The amount in ten-thousandths.
    pub fn units(&self) -> (r: i128)
        ensures
            r == self@,
    {
        self.units
    }

    /// The amount of a decimal with the given mantissa and scale; an error
    /// where it has a nonzero digit beyond the fourth fractional one or
    /// leaves the range.
    pub fn from_decimal_parts(mantissa: i128, scale: u32) -> (r: Result<Self, LedgerError>)
        requires
            fits(mantissa as int),
        ensures
            match units_of_parts(mantissa as int, scale as nat) {
                Some(u) => r matches Ok(a) && a@ == u && a.wf(),
                None => r == Err::<Self, LedgerError>(LedgerError::InvalidAmount),
            },
    {
        let mut m: i128 = mantissa;
        let mut sc: u32 = scale;
        while sc > 4
            invariant
                fits(m as int),
                units_of_parts(m as int, sc as nat) == units_of_parts(
                    mantissa as int,
                    scale as nat,
                ),
            decreases sc,
        {
            if m % 10 != 0 {
                return Err(LedgerError::InvalidAmount);
            }
            m = m / 10;
            sc = sc - 1;
        }
        let factor: i128 = if sc == 0 {
            10000
        } else if sc == 1 {
            1000
        } else if sc == 2 {
            100
        } else if sc == 3 {
            10
        } else {
            1
        };
        proof {
            reveal_with_fuel(pow10, 5);
            assert(factor == pow10((4 - sc) as nat));
            assert(-(MAX_UNITS as int) * 10000 <= m * factor <= (MAX_UNITS as int) * 10000)
                by (nonlinear_arith)
                requires
                    fits(m as int),
                    1 <= factor <= 10000,
            ;
        }
        let units = m * factor;
        if units > MAX_UNITS || units < -MAX_UNITS {
            return Err(LedgerError::InvalidAmount);
        }
        Ok(MonetaryAmount { units })
    }

    /// Reads an amount from decimal text such as "100.1234" or "-0.5".
    pub fn parse(text: &str) -> (r: Result<Self, LedgerError>)
        ensures
            match units_of_text(text@) {
                Some(u) => r matches Ok(a) && a@ == u && a.wf(),
                None => r == Err::<Self, LedgerError>(LedgerError::InvalidAmount),
            },
    {
        match parse_decimal(text) {
            Some((mantissa, scale)) => Self::from_decimal_parts(mantissa, scale),
            None => Err(LedgerError::InvalidAmount),
        }
    }

    /// The sum, or `None` where it leaves the range.
    pub fn checked_add(&self, other: &Self) -> (r: Option<Self>)
        requires
            self.wf(),
            other.wf(),
        ensures
            r is Some <==> fits(self@ + other@),
            r matches Some(s) ==> s@ == self@ + other@ && s.wf(),
    {
        let s = self.units + other.units;
        if s > MAX_UNITS || s < -MAX_UNITS {
            None
        } else {
            Some(MonetaryAmount { units: s })
        }
    }

    /// The difference, or `None` where it leaves the range. A negative
    /// result is not an error here.
    pub fn checked_sub(&self, other: &Self) -> (r: Option<Self>)
        requires
            self.wf(),
            other.wf(),
        ensures
            r is Some <==> fits(self@ - other@),
            r matches Some(s) ==> s@ == self@ - other@ && s.wf(),
    {
        let s = self.units - other.units;
        if s > MAX_UNITS || s < -MAX_UNITS {
            None
        } else {
            Some(MonetaryAmount { units: s })
        }
    }

    /// Whether the amount is below zero.
    pub fn is_negative(&self) -> (r: bool)
        ensures
            r == (self@ < 0),
    {
        self.units < 0
    }

    /// The amount with exactly four fractional digits, as in "102.3234".
    pub fn to_canonical_string(&self) -> (r: String)
        requires
            self.wf(),
        ensures
            r@ == canonical_text(self@),
    {
        render_four_places(self.units)
    }
}

} // verus!
