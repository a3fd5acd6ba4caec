use vstd::prelude::*;

verus! {

/// Largest magnitude of a decimal's mantissa: 96 bits.
pub const MAX_MANTISSA: i128 = 0xFFFF_FFFF_FFFF_FFFF_FFFF_FFFF;

/// Largest number of digits after the decimal point.
pub const MAX_SCALE: u32 = 28;

/// `10` to the power `n`.
pub open spec fn pow10(n: nat) -> int
    decreases n,
{
    if n == 0 { 1 } else { 10 * pow10((n - 1) as nat) }
}

/// An exact decimal number `mantissa * 10^-scale`, held as plain values.
/// Sums, quotients and products are computed by `rust_decimal`.
#[derive(Clone, Copy, Debug)]
pub struct Dec {
    pub mantissa: i128,
    pub scale: u32,
}

/// `a <= b` as numbers: compares `a.mantissa / 10^a.scale` with
/// `b.mantissa / 10^b.scale` by cross-multiplication.
pub open spec fn dec_le(a: Dec, b: Dec) -> bool {
    a.mantissa * pow10(b.scale as nat) <= b.mantissa * pow10(a.scale as nat)
}

/// `a` and `b` denote the same number, whatever their scales.
pub open spec fn dec_same(a: Dec, b: Dec) -> bool {
    a.mantissa * pow10(b.scale as nat) == b.mantissa * pow10(a.scale as nat)
}

/// The decimal built from a mantissa and a scale.
pub open spec fn dec_of(p: (int, int)) -> Dec {
    Dec { mantissa: p.0 as i128, scale: p.1 as u32 }
}

/// What `rust_decimal` computes for `a + b` with `checked_add`, as a
/// mantissa and a scale, or `None` on overflow.
pub uninterp spec fn decimal_checked_sum(a_mantissa: int, a_scale: int, b_mantissa: int, b_scale: int) -> Option<(int, int)>;

/// What `rust_decimal` computes for `a / b` with `checked_div`.
pub uninterp spec fn decimal_checked_quotient(a_mantissa: int, a_scale: int, b_mantissa: int, b_scale: int) -> Option<(int, int)>;

/// What `rust_decimal` computes for `a * b` with `checked_mul`.
pub uninterp spec fn decimal_checked_product(a_mantissa: int, a_scale: int, b_mantissa: int, b_scale: int) -> Option<(int, int)>;

/// Both are whole numbers below `2^31` in magnitude and `b` is not zero.
pub open spec fn small_whole_divisible(a: Dec, b: Dec) -> bool {
    &&& a.scale == 0 && b.scale == 0 && b.mantissa != 0
    &&& -0x8000_0000 <= a.mantissa <= 0x8000_0000
    &&& -0x8000_0000 <= b.mantissa <= 0x8000_0000
}

/// `c` is the product of `a` and `b` as a rounding to nearest gives it:
/// within `10^-8` of the exact product, and at least every whole number
/// that the exact product is at least.
pub open spec fn product_rounded(a: Dec, b: Dec, c: Dec) -> bool {
    let exact = a.mantissa * b.mantissa;
    let s = (a.scale + b.scale) as nat;
    &&& (c.mantissa * pow10(s) - exact * pow10(c.scale as nat)) * 100_000_000 <= pow10((c.scale + s) as nat)
    &&& (exact * pow10(c.scale as nat) - c.mantissa * pow10(s)) * 100_000_000 <= pow10((c.scale + s) as nat)
    &&& forall|k: int| exact >= k * pow10(s) ==> #[trigger] (k * pow10(c.scale as nat)) <= c.mantissa
}

impl Dec {
    /// The decimal can be held by `rust_decimal`: a 96-bit mantissa and at
    /// most 28 digits after the point.
    pub open spec fn wf(self) -> bool {
        &&& -MAX_MANTISSA <= self.mantissa <= MAX_MANTISSA
        &&& self.scale <= MAX_SCALE
    }

    /// The magnitude of the number is at most `bound`.
    pub open spec fn within(self, bound: int) -> bool {
        -bound * pow10(self.scale as nat) <= self.mantissa <= bound * pow10(self.scale as nat)
    }

    /// Zero, with no digits after the point.
    pub fn zero() -> (res: Dec)
        ensures
            res.mantissa == 0 && res.scale == 0,
            res.wf(),
    {
        Dec { mantissa: 0, scale: 0 }
    }

    /// The decimal `mantissa * 10^-scale`, or `None` where it cannot be held.
    pub fn new(mantissa: i128, scale: u32) -> (res: Option<Dec>)
        ensures
            res is Some <==> (-MAX_MANTISSA <= mantissa <= MAX_MANTISSA && scale <= MAX_SCALE),
            res matches Some(d) ==> d.mantissa == mantissa && d.scale == scale && d.wf(),
    {
        if -MAX_MANTISSA <= mantissa && mantissa <= MAX_MANTISSA && scale <= MAX_SCALE {
            Some(Dec { mantissa, scale })
        } else {
            None
        }
    }

    /// The whole number `n`.
    pub fn from_i32(n: i32) -> (res: Dec)
        ensures
            res.mantissa == n && res.scale == 0,
            res.wf(),
    {
        Dec { mantissa: n as i128, scale: 0 }
    }
}

/// Calls `rust_decimal::Decimal::cmp` (through `>=`). Its source compares
/// the numbers exactly, rescaling the smaller scale, so the claim is that
/// the result is `b <= a` as numbers.
#[verifier::external_body]
pub(crate) fn dec_at_least(a: Dec, b: Dec) -> (res: bool)
    requires
        a.wf(),
        b.wf(),
    ensures
        res == dec_le(b, a),
{
    let x = rust_decimal::Decimal::from_i128_with_scale(a.mantissa, a.scale);
    let y = rust_decimal::Decimal::from_i128_with_scale(b.mantissa, b.scale);
    x >= y
}

/// Calls `rust_decimal::Decimal::checked_add`. The result is named
/// `decimal_checked_sum` of the two operands; a result, when there is one,
/// is a value that `rust_decimal` can hold. When the scales agree and the
/// sum of the mantissas fits in 96 bits, the source gives that sum at that
/// scale (a zero operand gives back the other one); that is claimed too. Rounding in
/// other sums is left to the name.
#[verifier::external_body]
pub(crate) fn dec_checked_add(a: Dec, b: Dec) -> (res: Option<Dec>)
    requires
        a.wf(),
        b.wf(),
    ensures
        match res {
            Some(c) => decimal_checked_sum(a.mantissa as int, a.scale as int, b.mantissa as int, b.scale as int)
                == Some((c.mantissa as int, c.scale as int)) && c.wf(),
            None => decimal_checked_sum(a.mantissa as int, a.scale as int, b.mantissa as int, b.scale as int) is None,
        },
        a.scale == b.scale && -MAX_MANTISSA <= a.mantissa + b.mantissa <= MAX_MANTISSA
            ==> res == Some(Dec { mantissa: (a.mantissa + b.mantissa) as i128, scale: a.scale }),
{
    let x = rust_decimal::Decimal::from_i128_with_scale(a.mantissa, a.scale);
    let y = rust_decimal::Decimal::from_i128_with_scale(b.mantissa, b.scale);
    match x.checked_add(y) {
        Some(c) => Some(Dec { mantissa: c.mantissa(), scale: c.scale() }),
        None => None,
    }
}

/// Calls `rust_decimal::Decimal::checked_div`. The result is named
/// `decimal_checked_quotient`. The source fails only on a zero divisor or
/// on a quotient too large for 96 bits, so for whole numbers below `2^31`
/// in magnitude and a nonzero divisor it gives a result whose magnitude is
/// at most `2^32`; this is claimed too. Its sign is the sign of the exact
/// quotient, and it carries the quotient to at least 18 decimal places,
/// rounded to nearest, so for a positive divisor below `2^31`: a
/// dividend of zero or more gives zero or more; a dividend at least the
/// divisor gives at least one; a smaller dividend gives at most
/// `1 - 1/2^31` plus the rounding, which is below `0.9999999996`. These
/// are claimed too.
#[verifier::external_body]
pub(crate) fn dec_checked_div(a: Dec, b: Dec) -> (res: Option<Dec>)
    requires
        a.wf(),
        b.wf(),
    ensures
        match res {
            Some(c) => decimal_checked_quotient(a.mantissa as int, a.scale as int, b.mantissa as int, b.scale as int)
                == Some((c.mantissa as int, c.scale as int)) && c.wf(),
            None => decimal_checked_quotient(a.mantissa as int, a.scale as int, b.mantissa as int, b.scale as int) is None,
        },
        small_whole_divisible(a, b) ==> (res is Some && res->0.within(0x1_0000_0000)),
        small_whole_divisible(a, b) && b.mantissa > 0 ==> (res is Some
            && (a.mantissa >= 0 ==> dec_le(Dec { mantissa: 0, scale: 0 }, res->0))
            && (a.mantissa >= b.mantissa ==> dec_le(Dec { mantissa: 1, scale: 0 }, res->0))
            && (a.mantissa < b.mantissa ==> dec_le(res->0, Dec { mantissa: 9_999_999_996, scale: 10 }))),
{
    let x = rust_decimal::Decimal::from_i128_with_scale(a.mantissa, a.scale);
    let y = rust_decimal::Decimal::from_i128_with_scale(b.mantissa, b.scale);
    match x.checked_div(y) {
        Some(c) => Some(Dec { mantissa: c.mantissa(), scale: c.scale() }),
        None => None,
    }
}

/// Calls `rust_decimal::Decimal::checked_mul`. The result is named
/// `decimal_checked_product`. The source fails only when the product does
/// not fit in 96 bits, so a product of two numbers of magnitude at most
/// `2^32` is always given; this is claimed too. Such a product is the
/// exact product where that fits, and otherwise the exact product rounded
/// to nearest after dropping as few decimal places as make it fit, which
/// leaves at least 8 for a magnitude below `2^64`. So it lies within
/// `10^-8` of the exact product, and is at least any whole number that the
/// exact product is at least; these are claimed too.
#[verifier::external_body]
pub(crate) fn dec_checked_mul(a: Dec, b: Dec) -> (res: Option<Dec>)
    requires
        a.wf(),
        b.wf(),
    ensures
        match res {
            Some(c) => decimal_checked_product(a.mantissa as int, a.scale as int, b.mantissa as int, b.scale as int)
                == Some((c.mantissa as int, c.scale as int)) && c.wf(),
            None => decimal_checked_product(a.mantissa as int, a.scale as int, b.mantissa as int, b.scale as int) is None,
        },
        (a.within(0x1_0000_0000) && b.within(0x1_0000_0000)) ==> res is Some,
        (a.within(0x1_0000_0000) && b.within(0x1_0000_0000)) ==> (res is Some && product_rounded(a, b, res->0)),
{
    let x = rust_decimal::Decimal::from_i128_with_scale(a.mantissa, a.scale);
    let y = rust_decimal::Decimal::from_i128_with_scale(b.mantissa, b.scale);
    match x.checked_mul(y) {
        Some(c) => Some(Dec { mantissa: c.mantissa(), scale: c.scale() }),
        None => None,
    }
}

} // verus!
