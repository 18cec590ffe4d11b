//! Exact decimal amounts (prices, weights, percentages) and their text.
//!
//! An [`Amount`] holds a decimal number as a mantissa and a scale: the value
//! is `mantissa / 10^scale`. The arithmetic and the formatting are those of
//! `rust_decimal::Decimal`, reached through the trusted wrappers below.

use vstd::prelude::*;
use rust_decimal::Decimal;

verus! {

/// The largest mantissa a `rust_decimal::Decimal` holds (96 bits).
pub const MAX_MANTISSA: i128 = 0xFFFF_FFFF_FFFF_FFFF_FFFF_FFFFi128;

/// The largest scale a `rust_decimal::Decimal` holds.
pub const MAX_SCALE: u32 = 28u32;

/// A decimal number `mantissa / 10^scale`.
#[derive(Clone, Copy, Debug, PartialEq, Eq, Structural)]
pub struct Amount {
    pub mantissa: i128,
    pub scale: u32,
}

impl Amount {
    /// The mantissa and the scale are within what a decimal of the service holds.
    pub open spec fn wf(self) -> bool {
        &&& -MAX_MANTISSA <= self.mantissa <= MAX_MANTISSA
        &&& self.scale <= MAX_SCALE
    }

    /// The amount as a pair of integers.
    pub open spec fn parts(self) -> (int, int) {
        (self.mantissa as int, self.scale as int)
    }

    /// The amount `mantissa / 10^scale`, or `None` where the mantissa does not
    /// fit in 96 bits or the scale exceeds 28.
    pub fn new(mantissa: i128, scale: u32) -> (r: Option<Amount>)
        ensures
            r is Some <==> (-MAX_MANTISSA <= mantissa <= MAX_MANTISSA && scale <= MAX_SCALE),
            r matches Some(a) ==> a.mantissa == mantissa && a.scale == scale,
    {
        if -MAX_MANTISSA <= mantissa && mantissa <= MAX_MANTISSA && scale <= MAX_SCALE {
            Some(Amount { mantissa, scale })
        } else {
            None
        }
    }

    /// The whole number `n`.
    pub fn whole(n: i64) -> (r: Amount)
        ensures
            r.mantissa == n,
            r.scale == 0,
            r.wf(),
    {
        Amount { mantissa: n as i128, scale: 0 }
    }
}

/// The character of the decimal digit `d` (`0 <= d < 10`).
pub open spec fn digit_char(d: int) -> char {
    (48 + d) as char
}

/// The decimal digits of `n`, most significant first (one `0` for zero).
pub open spec fn digits(n: nat) -> Seq<char>
    decreases n,
{
    if n < 10 {
        seq![digit_char(n as int)]
    } else {
        digits(n / 10).push(digit_char((n % 10) as int))
    }
}

/// `k` zeros.
pub open spec fn zeros(k: nat) -> Seq<char> {
    Seq::new(k, |i: int| '0')
}

/// The absolute value.
pub open spec fn abs(m: int) -> nat {
    if m < 0 { (-m) as nat } else { m as nat }
}

/// How `rust_decimal` writes `mantissa / 10^scale`: a minus sign for a
/// negative mantissa, the whole part (`0` when it is empty), and, for a
/// positive scale, a point followed by exactly `scale` fraction digits.
pub open spec fn amount_text(mantissa: int, scale: nat) -> Seq<char> {
    let ds = if mantissa == 0 { Seq::<char>::empty() } else { digits(abs(mantissa)) };
    let padded = if scale > ds.len() { zeros((scale - ds.len()) as nat) + ds } else { ds };
    let whole = padded.take(padded.len() - scale);
    let frac = padded.skip(padded.len() - scale);
    let body = (if whole.len() == 0 { seq!['0'] } else { whole }) + (if scale > 0 {
        seq!['.'] + frac
    } else {
        Seq::empty()
    });
    if mantissa < 0 { seq!['-'] + body } else { body }
}

/// The amount with its trailing fraction zeros removed; zero becomes `0`
/// with scale 0.
pub open spec fn normal_form(mantissa: int, scale: nat) -> (int, nat)
    decreases scale,
{
    if mantissa == 0 {
        (0, 0)
    } else if scale > 0 && mantissa % 10 == 0 {
        normal_form(mantissa / 10, (scale - 1) as nat)
    } else {
        (mantissa, scale)
    }
}

/// The pair of an optional amount.
pub open spec fn parts_of(r: Option<Amount>) -> Option<(int, int)> {
    match r {
        Some(x) => Some(x.parts()),
        None => None,
    }
}

/// What `rust_decimal` computes for `a / b`, or `None` where it reports
/// overflow or division by zero (pairs are mantissa and scale).
pub uninterp spec fn decimal_quotient(a: (int, int), b: (int, int)) -> Option<(int, int)>;

/// What `rust_decimal` computes for `a + b`, or `None` on overflow.
pub uninterp spec fn decimal_sum(a: (int, int), b: (int, int)) -> Option<(int, int)>;

/// What `rust_decimal` computes for `a * b`, or `None` on overflow.
pub uninterp spec fn decimal_product(a: (int, int), b: (int, int)) -> Option<(int, int)>;

/// Writes the amount as text.
///
/// Trusted: builds the `rust_decimal::Decimal` of the amount with
/// `Decimal::from_i128_with_scale` and calls `to_string`, whose `Display`
/// implementation (`str::to_str_internal` and `pad_integral`) writes the sign,
/// the digits of the mantissa padded with leading zeros up to the scale, and
/// the point before the last `scale` digits, as [`amount_text`] states.
#[verifier::external_body]
pub(crate) fn amount_to_string(a: &Amount) -> (r: String)
    requires
        a.wf(),
    ensures
        r@ == amount_text(a.mantissa as int, a.scale as nat),
{
    Decimal::from_i128_with_scale(a.mantissa, a.scale).to_string()
}

/// The amount with trailing zeros stripped.
///
/// Trusted: calls `Decimal::normalize`, whose source divides the mantissa by
/// ten while the scale is positive and the division is exact, and clears the
/// sign and scale of zero, as [`normal_form`] states.
#[verifier::external_body]
pub(crate) fn normalize(a: &Amount) -> (r: Amount)
    requires
        a.wf(),
    ensures
        r.wf(),
        (r.mantissa as int, r.scale as nat) == normal_form(a.mantissa as int, a.scale as nat),
{
    let d = Decimal::from_i128_with_scale(a.mantissa, a.scale).normalize();
    Amount { mantissa: d.mantissa(), scale: d.scale() }
}

/// `a / b`.
///
/// Trusted: calls `Decimal::checked_div`, which returns `None` exactly where
/// the `/` operator would panic; a `Decimal` always has a 96-bit mantissa and
/// a scale of at most 28.
#[verifier::external_body]
pub(crate) fn checked_quotient(a: &Amount, b: &Amount) -> (r: Option<Amount>)
    requires
        a.wf(),
        b.wf(),
    ensures
        parts_of(r) == decimal_quotient(a.parts(), b.parts()),
        r matches Some(x) ==> x.wf(),
{
    let x = Decimal::from_i128_with_scale(a.mantissa, a.scale);
    let y = Decimal::from_i128_with_scale(b.mantissa, b.scale);
    match x.checked_div(y) {
        Some(d) => Some(Amount { mantissa: d.mantissa(), scale: d.scale() }),
        None => None,
    }
}

/// `a + b`.
///
/// Trusted: calls `Decimal::checked_add`, which returns `None` exactly where
/// the `+` operator would panic.
#[verifier::external_body]
pub(crate) fn checked_sum(a: &Amount, b: &Amount) -> (r: Option<Amount>)
    requires
        a.wf(),
        b.wf(),
    ensures
        parts_of(r) == decimal_sum(a.parts(), b.parts()),
        r matches Some(x) ==> x.wf(),
{
    let x = Decimal::from_i128_with_scale(a.mantissa, a.scale);
    let y = Decimal::from_i128_with_scale(b.mantissa, b.scale);
    match x.checked_add(y) {
        Some(d) => Some(Amount { mantissa: d.mantissa(), scale: d.scale() }),
        None => None,
    }
}

/// `a * b`.
///
/// Trusted: calls `Decimal::checked_mul`, which returns `None` exactly where
/// the `*` operator would panic.
#[verifier::external_body]
pub(crate) fn checked_product(a: &Amount, b: &Amount) -> (r: Option<Amount>)
    requires
        a.wf(),
        b.wf(),
    ensures
        parts_of(r) == decimal_product(a.parts(), b.parts()),
        r matches Some(x) ==> x.wf(),
{
    let x = Decimal::from_i128_with_scale(a.mantissa, a.scale);
    let y = Decimal::from_i128_with_scale(b.mantissa, b.scale);
    match x.checked_mul(y) {
        Some(d) => Some(Amount { mantissa: d.mantissa(), scale: d.scale() }),
        None => None,
    }
}

/// Ten to the power `k`.
pub open spec fn pow10(k: nat) -> int
    decreases k,
{
    if k == 0 { 1 } else { 10 * pow10((k - 1) as nat) }
}

/// Stripping trailing zeros keeps the value and leaves none: the result has
/// no fraction digit `0` at its end, zero has scale 0, and the mantissa is
/// the original one divided by ten once per digit removed.
pub proof fn lemma_normal_form(mantissa: int, scale: nat)
    ensures
        normal_form(mantissa, scale).1 <= scale,
        normal_form(mantissa, scale).1 > 0 ==> normal_form(mantissa, scale).0 % 10 != 0,
        normal_form(mantissa, scale).0 == 0 ==> normal_form(mantissa, scale).1 == 0,
        mantissa == normal_form(mantissa, scale).0 * pow10((scale - normal_form(mantissa, scale).1) as nat),
    decreases scale,
{
    if mantissa == 0 {
    } else if scale > 0 && mantissa % 10 == 0 {
        let m2 = mantissa / 10;
        lemma_normal_form(m2, (scale - 1) as nat);
        let r = normal_form(m2, (scale - 1) as nat);
        assert(mantissa == 10 * m2);
        assert(pow10((scale - r.1) as nat) == 10 * pow10((scale - 1 - r.1) as nat));
        assert(m2 == r.0 * pow10((scale - 1 - r.1) as nat));
        assert(mantissa == r.0 * pow10((scale - r.1) as nat)) by (nonlinear_arith)
            requires
                mantissa == 10 * m2,
                m2 == r.0 * pow10((scale - 1 - r.1) as nat),
                pow10((scale - r.1) as nat) == 10 * pow10((scale - 1 - r.1) as nat),
        ;
    } else {
        assert(pow10(0) == 1);
    }
}

/// The text of the amount with trailing zeros stripped, as budgets show it.
pub fn format_decimal(value: &Amount) -> (r: String)
    requires
        value.wf(),
    ensures
        r@ == amount_text(normal_form(value.mantissa as int, value.scale as nat).0,
            normal_form(value.mantissa as int, value.scale as nat).1),
{
    let n = normalize(value);
    amount_to_string(&n)
}

} // verus!
