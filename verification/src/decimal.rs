use vstd::prelude::*;
use rust_decimal::Decimal;

verus! {

/// The largest magnitude of a mantissa: 96 bits.
pub const MAX_MANTISSA: i128 = 0xFFFF_FFFF_FFFF_FFFF_FFFF_FFFFi128;

/// The largest scale, that is the most digits after the point.
pub const MAX_SCALE: u32 = 28;

/// A decimal number, `mantissa * 10^-scale`, held as its parts.
#[derive(Clone, Copy, Debug, PartialEq, Eq, Structural)]
pub struct DecimalValue {
    pub mantissa: i128,
    pub scale: u32,
}

impl View for DecimalValue {
    type V = (i128, u32);

    open spec fn view(&self) -> (i128, u32) {
        (self.mantissa, self.scale)
    }
}

/// The decimal with the given parts.
pub open spec fn decimal_of(parts: (i128, u32)) -> DecimalValue {
    DecimalValue { mantissa: parts.0, scale: parts.1 }
}

impl DecimalValue {
    /// The parts are those of a decimal: a 96-bit mantissa and a scale of
    /// at most 28.
    pub open spec fn wf(self) -> bool {
        &&& -MAX_MANTISSA <= self.mantissa <= MAX_MANTISSA
        &&& self.scale <= MAX_SCALE
    }

    /// One.
    pub fn one() -> (d: DecimalValue)
        ensures
            d.wf(),
            d@ == (1i128, 0u32),
    {
        DecimalValue { mantissa: 1, scale: 0 }
    }
}

/// The parts of `a - b` as `Decimal::checked_sub` computes it, or `None`
/// where that overflows.
pub uninterp spec fn decimal_checked_sub(a: (i128, u32), b: (i128, u32)) -> Option<(i128, u32)>;

/// The parts of `a + b` as `Decimal::checked_add` computes it, or `None`
/// where that overflows.
pub uninterp spec fn decimal_checked_add(a: (i128, u32), b: (i128, u32)) -> Option<(i128, u32)>;

/// The parts of `a * b` as `Decimal::checked_mul` computes it, or `None`
/// where that overflows.
pub uninterp spec fn decimal_checked_mul(a: (i128, u32), b: (i128, u32)) -> Option<(i128, u32)>;

/// `rust_decimal::Decimal::checked_sub`, on decimals built from their parts
/// with `Decimal::from_i128_with_scale` (which keeps the parts as given).
/// Claimed: the result is `decimal_checked_sub` of the parts, and a result
/// has the parts of a decimal. `None` comes exactly where `-` on `Decimal`
/// panics ("Subtraction overflowed").
#[verifier::external_body]
pub(crate) fn checked_sub(a: DecimalValue, b: DecimalValue) -> (r: Option<DecimalValue>)
    requires
        a.wf(),
        b.wf(),
    ensures
        r matches Some(d) ==> d.wf() && decimal_checked_sub(a@, b@) == Some(d@),
        r is None ==> decimal_checked_sub(a@, b@) is None,
{
    let x = Decimal::from_i128_with_scale(a.mantissa, a.scale);
    let y = Decimal::from_i128_with_scale(b.mantissa, b.scale);
    match x.checked_sub(y) {
        Some(d) => Some(DecimalValue { mantissa: d.mantissa(), scale: d.scale() }),
        None => None,
    }
}

/// `rust_decimal::Decimal::checked_add`, on decimals built from their parts
/// with `Decimal::from_i128_with_scale` (which keeps the parts as given).
/// Claimed: the result is `decimal_checked_add` of the parts, and a result
/// has the parts of a decimal. `None` comes exactly where `+` on `Decimal`
/// panics ("Addition overflowed").
#[verifier::external_body]
pub(crate) fn checked_add(a: DecimalValue, b: DecimalValue) -> (r: Option<DecimalValue>)
    requires
        a.wf(),
        b.wf(),
    ensures
        r matches Some(d) ==> d.wf() && decimal_checked_add(a@, b@) == Some(d@),
        r is None ==> decimal_checked_add(a@, b@) is None,
{
    let x = Decimal::from_i128_with_scale(a.mantissa, a.scale);
    let y = Decimal::from_i128_with_scale(b.mantissa, b.scale);
    match x.checked_add(y) {
        Some(d) => Some(DecimalValue { mantissa: d.mantissa(), scale: d.scale() }),
        None => None,
    }
}

/// `rust_decimal::Decimal::checked_mul`, on decimals built from their parts
/// with `Decimal::from_i128_with_scale` (which keeps the parts as given).
/// Claimed: the result is `decimal_checked_mul` of the parts, and a result
/// has the parts of a decimal. `None` comes exactly where `*` on `Decimal`
/// panics ("Multiplication overflowed").
#[verifier::external_body]
pub(crate) fn checked_mul(a: DecimalValue, b: DecimalValue) -> (r: Option<DecimalValue>)
    requires
        a.wf(),
        b.wf(),
    ensures
        r matches Some(d) ==> d.wf() && decimal_checked_mul(a@, b@) == Some(d@),
        r is None ==> decimal_checked_mul(a@, b@) is None,
{
    let x = Decimal::from_i128_with_scale(a.mantissa, a.scale);
    let y = Decimal::from_i128_with_scale(b.mantissa, b.scale);
    match x.checked_mul(y) {
        Some(d) => Some(DecimalValue { mantissa: d.mantissa(), scale: d.scale() }),
        None => None,
    }
}

} // verus!
