//! Fixed-point decimal numbers.
//!
//! `Dec` holds the parts of a `rust_decimal::Decimal` as plain values: a sign,
//! a 96-bit magnitude and a scale (number of fractional digits).  Every
//! computation that the arithmetic crate performs is done by that crate,
//! through the small wrappers at the end of this file.
use rust_decimal::Decimal;
use vstd::prelude::*;

verus! {

/// 2^96: the magnitude of a decimal is always below this bound.
pub open spec fn mantissa_bound() -> nat {
    79228162514264337593543950336
}

/// Largest scale a decimal can carry.
pub open spec fn max_scale() -> nat {
    28
}

pub open spec fn pow10(n: nat) -> int
    decreases n,
{
    if n == 0 {
        1
    } else {
        10 * pow10((n - 1) as nat)
    }
}

/// A decimal seen as (negative, magnitude, scale).
pub type DecV = (bool, nat, nat);

pub open spec fn dv_wf(v: DecV) -> bool {
    v.1 < mantissa_bound() && v.2 <= max_scale()
}

/// Signed mantissa.
pub open spec fn dv_num(v: DecV) -> int {
    if v.0 {
        -(v.1 as int)
    } else {
        v.1 as int
    }
}

/// The integer `k` as a decimal of scale zero.
pub open spec fn int_dv(k: int) -> DecV {
    if k < 0 {
        (true, (-k) as nat, 0)
    } else {
        (false, k as nat, 0)
    }
}

/// `num / 10^scale` as a decimal (sign of `num`).
pub open spec fn scaled_dv(num: int, scale: nat) -> DecV {
    if num < 0 {
        (true, (-num) as nat, scale)
    } else {
        (false, num as nat, scale)
    }
}

/// Numeric comparison: a < b.
pub open spec fn dv_lt(a: DecV, b: DecV) -> bool {
    dv_num(a) * pow10(b.2) < dv_num(b) * pow10(a.2)
}

/// Numeric comparison: a <= b.
pub open spec fn dv_le(a: DecV, b: DecV) -> bool {
    dv_num(a) * pow10(b.2) <= dv_num(b) * pow10(a.2)
}

/// Numeric equality (1.0 equals 1.00).
pub open spec fn dv_eq(a: DecV, b: DecV) -> bool {
    dv_num(a) * pow10(b.2) == dv_num(b) * pow10(a.2)
}

pub open spec fn dv_is_zero(a: DecV) -> bool {
    a.1 == 0
}

/// Exact sum at the larger of the two scales.
pub open spec fn exact_sum(a: DecV, b: DecV) -> DecV {
    let s: nat = if a.2 >= b.2 { a.2 } else { b.2 };
    scaled_dv(dv_num(a) * pow10((s - a.2) as nat) + dv_num(b) * pow10((s - b.2) as nat), s)
}

/// Exact difference at the larger of the two scales.
pub open spec fn exact_diff(a: DecV, b: DecV) -> DecV {
    let s: nat = if a.2 >= b.2 { a.2 } else { b.2 };
    scaled_dv(dv_num(a) * pow10((s - a.2) as nat) - dv_num(b) * pow10((s - b.2) as nat), s)
}

/// Exact product.
pub open spec fn exact_product(a: DecV, b: DecV) -> DecV {
    scaled_dv(dv_num(a) * dv_num(b), a.2 + b.2)
}

/// Banker's rounding of the magnitude to `dp` fractional digits; a decimal
/// that already has at most `dp` digits is returned unchanged, a zero keeps
/// its sign, and a non-zero value that rounds to zero loses it.
pub open spec fn round_dp_spec(v: DecV, dp: nat) -> DecV {
    if v.2 <= dp {
        v
    } else if v.1 == 0 {
        (v.0, 0, dp)
    } else {
        let p = pow10((v.2 - dp) as nat);
        let q = v.1 as int / p;
        let r = v.1 as int % p;
        let up = 2 * r > p || (2 * r == p && q % 2 == 1);
        let m = (if up { q + 1 } else { q }) as nat;
        (if m == 0 { false } else { v.0 }, m, dp)
    }
}

/// What `Decimal::checked_add` returns (`None` when the sum cannot be held).
pub uninterp spec fn decimal_checked_add(a: DecV, b: DecV) -> Option<DecV>;

/// What `Decimal::checked_sub` returns.
pub uninterp spec fn decimal_checked_sub(a: DecV, b: DecV) -> Option<DecV>;

/// What `Decimal::checked_mul` returns.
pub uninterp spec fn decimal_checked_mul(a: DecV, b: DecV) -> Option<DecV>;

/// What `Decimal::checked_div` returns.
pub uninterp spec fn decimal_checked_div(a: DecV, b: DecV) -> Option<DecV>;

/// The text that `Decimal`'s `Display` writes (no precision given).
pub uninterp spec fn decimal_text(a: DecV) -> Seq<char>;

/// The text that `Decimal`'s `Display` writes with a given precision.
pub uninterp spec fn decimal_text_prec(a: DecV, prec: nat) -> Seq<char>;

/// What `Decimal::from_str_exact` returns for a text.
pub uninterp spec fn decimal_parse_exact(s: Seq<char>) -> Option<DecV>;

/// All characters are the digits 0-9.
pub open spec fn plain_digits(s: Seq<char>) -> bool {
    forall|i: int| 0 <= i < s.len() ==> '0' <= #[trigger] s[i] && s[i] <= '9'
}

/// The number a run of digits writes.
pub open spec fn digits_number(s: Seq<char>) -> nat
    decreases s.len(),
{
    if s.len() == 0 {
        0
    } else {
        10 * digits_number(s.drop_last()) + ((s.last() as int - '0' as int) as nat)
    }
}

/// Index of the first '.', or -1.
pub open spec fn point_index(s: Seq<char>) -> int
    decreases s.len(),
{
    if s.len() == 0 {
        -1
    } else if s[0] == '.' {
        0
    } else {
        let r = point_index(s.drop_first());
        if r < 0 {
            -1
        } else {
            r + 1
        }
    }
}

/// A plain decimal literal: digits, or digits, '.' and digits, with at most
/// 28 digits in all.  Its value has the written digits as magnitude and the
/// number of digits after the point as scale.
pub open spec fn plain_decimal(s: Seq<char>) -> Option<DecV> {
    let p = point_index(s);
    if p < 0 {
        if 1 <= s.len() <= 28 && plain_digits(s) {
            Some((false, digits_number(s), 0))
        } else {
            None
        }
    } else {
        let a = s.take(p);
        let b = s.skip(p + 1);
        if a.len() >= 1 && b.len() >= 1 && a.len() + b.len() <= 28 && plain_digits(a) && plain_digits(b) {
            Some((false, digits_number(a + b), b.len()))
        } else {
            None
        }
    }
}

/// The difference that `Decimal::checked_sub` returns.
pub open spec fn sub_v(a: DecV, b: DecV) -> DecV {
    decimal_checked_sub(a, b).unwrap()
}

/// The product that `Decimal::checked_mul` returns.
pub open spec fn mul_v(a: DecV, b: DecV) -> DecV {
    decimal_checked_mul(a, b).unwrap()
}

pub open spec fn abs_v(a: DecV) -> DecV {
    (false, a.1, a.2)
}

/// `Decimal::max`.
pub open spec fn max_v(a: DecV, b: DecV) -> DecV {
    if dv_lt(a, b) { b } else { a }
}

/// `Decimal::min`.
pub open spec fn min_v(a: DecV, b: DecV) -> DecV {
    if dv_lt(b, a) { b } else { a }
}

/// `r` has the magnitude and scale of `e`, and its sign unless `e` is zero.
pub open spec fn same_rep(r: DecV, e: DecV) -> bool {
    r.1 == e.1 && r.2 == e.2 && (e.1 != 0 ==> r.0 == e.0)
}

/// Sign flipped unless zero.
pub open spec fn neg_v(a: DecV) -> DecV {
    if a.1 != 0 { (!a.0, a.1, a.2) } else { a }
}

/// A decimal number: sign, magnitude below 2^96, and scale at most 28.
#[derive(Clone, Copy, Debug)]
pub struct Dec {
    pub negative: bool,
    pub mantissa: u128,
    pub scale: u32,
}

impl View for Dec {
    type V = DecV;

    open spec fn view(&self) -> DecV {
        (self.negative, self.mantissa as nat, self.scale as nat)
    }
}

impl Dec {
    pub open spec fn wf(&self) -> bool {
        dv_wf(self@)
    }

    /// `Decimal::ZERO`.
    pub fn zero() -> (r: Dec)
        ensures
            r.wf(),
            r@ == int_dv(0),
    {
        Dec { negative: false, mantissa: 0, scale: 0 }
    }

    /// `Decimal::ONE`.
    pub fn one() -> (r: Dec)
        ensures
            r.wf(),
            r@ == int_dv(1),
    {
        Dec { negative: false, mantissa: 1, scale: 0 }
    }

    /// `Decimal::MAX`: the largest magnitude with scale zero.
    pub fn max_value() -> (r: Dec)
        ensures
            r.wf(),
            r@ == (false, (mantissa_bound() - 1) as nat, 0nat),
    {
        Dec { negative: false, mantissa: 79228162514264337593543950335, scale: 0 }
    }

    /// `Decimal::from(i64)`.
    pub fn from_i64(i: i64) -> (r: Dec)
        ensures
            r.wf(),
            r@ == int_dv(i as int),
    {
        if i < 0 {
            let m: u128 = (-(i as i128)) as u128;
            Dec { negative: true, mantissa: m, scale: 0 }
        } else {
            Dec { negative: false, mantissa: i as u128, scale: 0 }
        }
    }

    /// `Decimal::from(u64)`.
    pub fn from_u64(i: u64) -> (r: Dec)
        ensures
            r.wf(),
            r@ == int_dv(i as int),
    {
        Dec { negative: false, mantissa: i as u128, scale: 0 }
    }

    /// `Decimal::new(num, scale)`: the value `num / 10^scale`.
    pub fn new(num: i64, scale: u32) -> (r: Dec)
        requires
            scale <= 28,
        ensures
            r.wf(),
            r@ == scaled_dv(num as int, scale as nat),
    {
        if num < 0 {
            let m: u128 = (-(num as i128)) as u128;
            Dec { negative: true, mantissa: m, scale }
        } else {
            Dec { negative: false, mantissa: num as u128, scale }
        }
    }

    /// `Decimal::abs`: the same magnitude and scale, sign cleared.
    pub fn abs(&self) -> (r: Dec)
        requires
            self.wf(),
        ensures
            r.wf(),
            r@ == (false, self@.1, self@.2),
    {
        Dec { negative: false, mantissa: self.mantissa, scale: self.scale }
    }

    /// `Decimal::is_zero`.
    pub fn is_zero(&self) -> (r: bool)
        ensures
            r == dv_is_zero(self@),
    {
        self.mantissa == 0
    }

    /// Numeric `self < other`.
    pub fn lt(&self, other: &Dec) -> (r: bool)
        requires
            self.wf(),
            other.wf(),
        ensures
            r == dv_lt(self@, other@),
    {
        decimal_lt(self, other)
    }

    /// Numeric `self > other`.
    pub fn gt(&self, other: &Dec) -> (r: bool)
        requires
            self.wf(),
            other.wf(),
        ensures
            r == dv_lt(other@, self@),
    {
        decimal_lt(other, self)
    }

    /// Numeric `self <= other`.
    pub fn le(&self, other: &Dec) -> (r: bool)
        requires
            self.wf(),
            other.wf(),
        ensures
            r == dv_le(self@, other@),
    {
        !decimal_lt(other, self)
    }

    /// Numeric `self >= other`.
    pub fn ge(&self, other: &Dec) -> (r: bool)
        requires
            self.wf(),
            other.wf(),
        ensures
            r == dv_le(other@, self@),
    {
        !decimal_lt(self, other)
    }

    /// Numeric equality.
    pub fn eq(&self, other: &Dec) -> (r: bool)
        requires
            self.wf(),
            other.wf(),
        ensures
            r == dv_eq(self@, other@),
    {
        decimal_eq(self, other)
    }

    /// `Decimal::max`: `other` when `self < other`, else `self`.
    pub fn max(self, other: Dec) -> (r: Dec)
        requires
            self.wf(),
            other.wf(),
        ensures
            r.wf(),
            r@ == (if dv_lt(self@, other@) { other@ } else { self@ }),
    {
        if self.lt(&other) {
            other
        } else {
            self
        }
    }

    /// `Decimal::min`: `other` when `self > other`, else `self`.
    pub fn min(self, other: Dec) -> (r: Dec)
        requires
            self.wf(),
            other.wf(),
        ensures
            r.wf(),
            r@ == (if dv_lt(other@, self@) { other@ } else { self@ }),
    {
        if other.lt(&self) {
            other
        } else {
            self
        }
    }

    /// `Decimal::round_dp`: banker's rounding to `dp` fractional digits.
    pub fn round_dp(&self, dp: u32) -> (r: Dec)
        requires
            self.wf(),
        ensures
            r.wf(),
            r@ == round_dp_spec(self@, dp as nat),
    {
        decimal_round_dp(self, dp)
    }

    /// `Decimal::round`: banker's rounding to an integer.
    pub fn round(&self) -> (r: Dec)
        requires
            self.wf(),
        ensures
            r.wf(),
            r@ == round_dp_spec(self@, 0),
    {
        decimal_round_dp(self, 0)
    }

    /// Checked addition.
    pub fn add(&self, other: &Dec) -> (r: Option<Dec>)
        requires
            self.wf(),
            other.wf(),
        ensures
            opt_view(r) == decimal_checked_add(self@, other@),
            r matches Some(x) ==> x.wf(),
            dv_wf(exact_sum(self@, other@)) ==> r is Some && dv_eq(r.unwrap()@, exact_sum(self@, other@)),
            self@.1 != 0 && other@.1 != 0 && dv_wf(exact_sum(self@, other@)) ==> same_rep(r.unwrap()@, exact_sum(self@, other@)),
            self@.1 == 0 ==> r == Some(*other),
            self@.1 != 0 && other@.1 == 0 ==> r == Some(*self),
    {
        decimal_add(self, other)
    }

    /// Checked subtraction.
    pub fn sub(&self, other: &Dec) -> (r: Option<Dec>)
        requires
            self.wf(),
            other.wf(),
        ensures
            opt_view(r) == decimal_checked_sub(self@, other@),
            r matches Some(x) ==> x.wf(),
            dv_wf(exact_diff(self@, other@)) ==> r is Some && dv_eq(r.unwrap()@, exact_diff(self@, other@)),
            self@.1 != 0 && other@.1 != 0 && dv_wf(exact_diff(self@, other@)) ==> same_rep(r.unwrap()@, exact_diff(self@, other@)),
            self@.1 == 0 ==> r is Some && r.unwrap()@ == neg_v(other@),
            self@.1 != 0 && other@.1 == 0 ==> r == Some(*self),
    {
        decimal_sub(self, other)
    }

    /// Checked multiplication.
    pub fn mul(&self, other: &Dec) -> (r: Option<Dec>)
        requires
            self.wf(),
            other.wf(),
        ensures
            opt_view(r) == decimal_checked_mul(self@, other@),
            r matches Some(x) ==> x.wf(),
            dv_wf(exact_product(self@, other@)) ==> r is Some && dv_eq(r.unwrap()@, exact_product(self@, other@)),
            self@.1 != 0 && other@.1 != 0 && dv_wf(exact_product(self@, other@)) ==> r.unwrap()@ == exact_product(self@, other@),
            self@.1 == 0 || other@.1 == 0 ==> r is Some && r.unwrap()@ == int_dv(0),
    {
        decimal_mul(self, other)
    }

    /// Checked division (`None` for a zero divisor).
    pub fn div(&self, other: &Dec) -> (r: Option<Dec>)
        requires
            self.wf(),
            other.wf(),
        ensures
            opt_view(r) == decimal_checked_div(self@, other@),
            r matches Some(x) ==> x.wf(),
            dv_is_zero(other@) ==> r is None,
            dv_is_zero(self@) && !dv_is_zero(other@) ==> r is Some && r.unwrap()@ == int_dv(0),
            dv_le(int_dv(0), self@) && dv_lt(int_dv(0), other@) && r is Some ==> dv_le(int_dv(0), r.unwrap()@),
            dv_le(int_dv(0), self@) && dv_le(self@, other@) && dv_lt(int_dv(0), other@) ==> r is Some && dv_le(
                r.unwrap()@,
                int_dv(1),
            ),
            dv_lt(int_dv(0), other@) && dv_le(other@, exact_sum(self@, self@)) && r is Some ==> dv_le(
                scaled_dv(5, 1),
                r.unwrap()@,
            ),
            dv_lt(int_dv(0), self@) && dv_lt(int_dv(0), other@) && dv_le(
                other@,
                exact_product(self@, int_dv(1000000)),
            ) && r is Some ==> dv_le(scaled_dv(1, 6), r.unwrap()@),
    {
        decimal_div(self, other)
    }

    /// `Display` text.
    pub fn to_text(&self) -> (r: String)
        requires
            self.wf(),
        ensures
            r@ == decimal_text(self@),
    {
        decimal_to_string(self)
    }

    /// `Display` text with a precision (`{:.p}`).
    pub fn to_text_prec(&self, prec: usize) -> (r: String)
        requires
            self.wf(),
        ensures
            r@ == decimal_text_prec(self@, prec as nat),
    {
        decimal_to_string_prec(self, prec)
    }
}

pub open spec fn opt_view(o: Option<Dec>) -> Option<DecV> {
    match o {
        Some(x) => Some(x@),
        None => None,
    }
}

/// `Decimal::from_str_exact`, with the error dropped.
pub fn parse_exact(s: &str) -> (r: Option<Dec>)
    ensures
        opt_view(r) == decimal_parse_exact(s@),
        r matches Some(x) ==> x.wf(),
        plain_decimal(s@) is Some ==> opt_view(r) == plain_decimal(s@),
{
    decimal_from_str_exact(s)
}

// ---------------------------------------------------------------------------
// Calls into rust_decimal.
// ---------------------------------------------------------------------------
#[verifier::external_type_specification]
#[verifier::external_body]
pub struct ExDecimal(Decimal);

/// Builds a `rust_decimal::Decimal` from its parts with
/// `Decimal::from_i128_with_scale` and `set_sign_negative`; nothing is stated
/// of the opaque result.
#[verifier::external_body]
fn to_decimal(d: &Dec) -> (r: Decimal)
    requires
        d.wf(),
{
    let mut x = Decimal::from_i128_with_scale(d.mantissa as i128, d.scale);
    x.set_sign_negative(d.negative);
    x
}

/// Reads the parts of a `rust_decimal::Decimal` (`is_sign_negative`,
/// `mantissa`, `scale`); the crate keeps the magnitude below 2^96 and the
/// scale at most 28.
#[verifier::external_body]
fn from_decimal(x: Decimal) -> (r: Dec)
    ensures
        r.wf(),
{
    Dec { negative: x.is_sign_negative(), mantissa: x.mantissa().unsigned_abs(), scale: x.scale() }
}

/// `Decimal < Decimal` (`PartialOrd`): compares the numeric values.
#[verifier::external_body]
fn decimal_lt(a: &Dec, b: &Dec) -> (r: bool)
    requires
        a.wf(),
        b.wf(),
    ensures
        r == dv_lt(a@, b@),
{
    to_decimal(a) < to_decimal(b)
}

/// `Decimal == Decimal` (`PartialEq`): compares the numeric values.
#[verifier::external_body]
fn decimal_eq(a: &Dec, b: &Dec) -> (r: bool)
    requires
        a.wf(),
        b.wf(),
    ensures
        r == dv_eq(a@, b@),
{
    to_decimal(a) == to_decimal(b)
}

/// `Decimal::round_dp`: returns the input when its scale is at most `dp`;
/// otherwise divides the magnitude by 10^(scale - dp), rounding half to even,
/// and keeps the sign, with scale `dp`.
#[verifier::external_body]
fn decimal_round_dp(a: &Dec, dp: u32) -> (r: Dec)
    requires
        a.wf(),
    ensures
        r.wf(),
        r@ == round_dp_spec(a@, dp as nat),
{
    from_decimal(to_decimal(a).round_dp(dp))
}

/// `Decimal::checked_add`: the sum.  When both operands are non-zero and the
/// exact sum at the larger scale fits in 96 bits, that is the result (the sign
/// of a zero result aside); a zero left operand gives the right one
/// unchanged, and otherwise a zero right operand gives the left one.
#[verifier::external_body]
fn decimal_add(a: &Dec, b: &Dec) -> (r: Option<Dec>)
    requires
        a.wf(),
        b.wf(),
    ensures
        opt_view(r) == decimal_checked_add(a@, b@),
        r matches Some(x) ==> x.wf(),
        dv_wf(exact_sum(a@, b@)) ==> r is Some && dv_eq(r.unwrap()@, exact_sum(a@, b@)),
        a@.1 != 0 && b@.1 != 0 && dv_wf(exact_sum(a@, b@)) ==> same_rep(r.unwrap()@, exact_sum(a@, b@)),
        a@.1 == 0 ==> r == Some(*b),
        a@.1 != 0 && b@.1 == 0 ==> r == Some(*a),
{
    match to_decimal(a).checked_add(to_decimal(b)) {
        Some(x) => Some(from_decimal(x)),
        None => None,
    }
}

/// `Decimal::checked_sub`: the difference.  When both operands are non-zero
/// and the exact difference at the larger scale fits in 96 bits, that is the
/// result (the sign of a zero result aside); `0 - x` is `x` with its sign
/// flipped unless `x` is zero, and otherwise `x - 0` is `x`.
#[verifier::external_body]
fn decimal_sub(a: &Dec, b: &Dec) -> (r: Option<Dec>)
    requires
        a.wf(),
        b.wf(),
    ensures
        opt_view(r) == decimal_checked_sub(a@, b@),
        r matches Some(x) ==> x.wf(),
        dv_wf(exact_diff(a@, b@)) ==> r is Some && dv_eq(r.unwrap()@, exact_diff(a@, b@)),
        a@.1 != 0 && b@.1 != 0 && dv_wf(exact_diff(a@, b@)) ==> same_rep(r.unwrap()@, exact_diff(a@, b@)),
        a@.1 == 0 ==> r is Some && r.unwrap()@ == neg_v(b@),
        a@.1 != 0 && b@.1 == 0 ==> r == Some(*a),
{
    match to_decimal(a).checked_sub(to_decimal(b)) {
        Some(x) => Some(from_decimal(x)),
        None => None,
    }
}

/// `Decimal::checked_mul`: the product.  A zero operand gives `Decimal::ZERO`;
/// otherwise, when the exact product (scale = sum of scales) fits in 96 bits
/// with scale at most 28, that is the result.
#[verifier::external_body]
fn decimal_mul(a: &Dec, b: &Dec) -> (r: Option<Dec>)
    requires
        a.wf(),
        b.wf(),
    ensures
        opt_view(r) == decimal_checked_mul(a@, b@),
        r matches Some(x) ==> x.wf(),
        dv_wf(exact_product(a@, b@)) ==> r is Some && dv_eq(r.unwrap()@, exact_product(a@, b@)),
        a@.1 != 0 && b@.1 != 0 && dv_wf(exact_product(a@, b@)) ==> r.unwrap()@ == exact_product(a@, b@),
        a@.1 == 0 || b@.1 == 0 ==> r is Some && r.unwrap()@ == int_dv(0),
{
    match to_decimal(a).checked_mul(to_decimal(b)) {
        Some(x) => Some(from_decimal(x)),
        None => None,
    }
}

/// `Decimal::checked_div`: the quotient, `None` for a zero divisor or an
/// overflow; a zero dividend gives `Decimal::ZERO`.  The exact quotient is
/// rounded to the precision that fits, so a non-negative dividend over a
/// positive divisor gives a non-negative result, which is at most 1 (and
/// always present) when the dividend is at most the divisor, at least 0.5
/// when twice the dividend is at least the divisor, and at least 0.000001
/// when a million times a positive dividend is at least the divisor (the
/// last digit is rounded to nearest, and that bound lies on every grid of
/// six or more decimals).  How the quotient is
/// rounded is otherwise left to the name.
#[verifier::external_body]
fn decimal_div(a: &Dec, b: &Dec) -> (r: Option<Dec>)
    requires
        a.wf(),
        b.wf(),
    ensures
        opt_view(r) == decimal_checked_div(a@, b@),
        r matches Some(x) ==> x.wf(),
        dv_is_zero(b@) ==> r is None,
        dv_is_zero(a@) && !dv_is_zero(b@) ==> r is Some && r.unwrap()@ == int_dv(0),
        dv_le(int_dv(0), a@) && dv_lt(int_dv(0), b@) && r is Some ==> dv_le(int_dv(0), r.unwrap()@),
        dv_le(int_dv(0), a@) && dv_le(a@, b@) && dv_lt(int_dv(0), b@) ==> r is Some && dv_le(r.unwrap()@, int_dv(1)),
        dv_lt(int_dv(0), b@) && dv_le(b@, exact_sum(a@, a@)) && r is Some ==> dv_le(scaled_dv(5, 1), r.unwrap()@),
        dv_lt(int_dv(0), a@) && dv_lt(int_dv(0), b@) && dv_le(b@, exact_product(a@, int_dv(1000000))) && r is Some
            ==> dv_le(scaled_dv(1, 6), r.unwrap()@),
{
    match to_decimal(a).checked_div(to_decimal(b)) {
        Some(x) => Some(from_decimal(x)),
        None => None,
    }
}

/// `Decimal`'s `Display`: the text is named, not described.
#[verifier::external_body]
fn decimal_to_string(a: &Dec) -> (r: String)
    requires
        a.wf(),
    ensures
        r@ == decimal_text(a@),
{
    format!("{}", to_decimal(a))
}

/// `Decimal`'s `Display` with a precision (`{:.p}`).
#[verifier::external_body]
fn decimal_to_string_prec(a: &Dec, prec: usize) -> (r: String)
    requires
        a.wf(),
    ensures
        r@ == decimal_text_prec(a@, prec as nat),
{
    format!("{:.*}", prec, to_decimal(a))
}

/// `Decimal::from_str_exact`, `None` in place of its error.  A plain
/// literal (digits with at most one point inside, 28 digits at most) is read
/// exactly: its digits are the magnitude and the digits after the point the
/// scale.
#[verifier::external_body]
fn decimal_from_str_exact(s: &str) -> (r: Option<Dec>)
    ensures
        opt_view(r) == decimal_parse_exact(s@),
        r matches Some(x) ==> x.wf(),
        plain_decimal(s@) is Some ==> opt_view(r) == plain_decimal(s@),
{
    match Decimal::from_str_exact(s) {
        Ok(x) => Some(from_decimal(x)),
        Err(_) => None,
    }
}

/// Every power of ten is at least one.
pub proof fn lemma_pow10_positive(n: nat)
    ensures
        crate::decimal::pow10(n) >= 1,
    decreases n,
{
    if n > 0 {
        lemma_pow10_positive((n - 1) as nat);
    }
}

pub proof fn lemma_pow10_add(a: nat, b: nat)
    ensures
        pow10(a + b) == pow10(a) * pow10(b),
    decreases a,
{
    if a == 0 {
        assert(pow10(0) == 1);
        assert(a + b == b);
    } else {
        lemma_pow10_add((a - 1) as nat, b);
        let x = pow10((a - 1) as nat);
        let y = pow10(b);
        assert((a - 1 + b) as nat == (a + b - 1) as nat);
        assert(pow10(a + b) == 10 * pow10((a - 1 + b) as nat));
        assert(pow10(a) == 10 * x);
        assert(10 * (x * y) == (10 * x) * y) by (nonlinear_arith);
    }
}

/// The value of `a` as an integer count of 10^-k.
pub open spec fn at_scale(a: DecV, k: nat) -> int {
    dv_num(a) * pow10((k - a.2) as nat)
}

/// Comparisons can be made at any common scale at least both scales.
pub proof fn lemma_compare_at(a: DecV, b: DecV, k: nat)
    requires
        a.2 <= k,
        b.2 <= k,
    ensures
        dv_le(a, b) <==> at_scale(a, k) <= at_scale(b, k),
        dv_lt(a, b) <==> at_scale(a, k) < at_scale(b, k),
        dv_eq(a, b) <==> at_scale(a, k) == at_scale(b, k),
{
    let ka = (k - a.2) as nat;
    let kb = (k - b.2) as nat;
    lemma_pow10_add(ka, a.2);
    lemma_pow10_add(kb, b.2);
    assert(ka + a.2 == k && kb + b.2 == k);
    lemma_pow10_positive(ka);
    lemma_pow10_positive(kb);
    lemma_pow10_positive(k);
    let (na, nb) = (dv_num(a), dv_num(b));
    let (pa, pb, qa, qb, pk) = (pow10(a.2), pow10(b.2), pow10(ka), pow10(kb), pow10(k));
    assert(na * pb * (qa * qb) == (na * qa) * pk) by (nonlinear_arith)
        requires
            pk == qb * pb,
    ;
    assert(nb * pa * (qa * qb) == (nb * qb) * pk) by (nonlinear_arith)
        requires
            pk == qa * pa,
    ;
    assert(qa * qb >= 1) by (nonlinear_arith)
        requires
            qa >= 1,
            qb >= 1,
    ;
    assert((na * pb <= nb * pa) <==> (na * pb * (qa * qb) <= nb * pa * (qa * qb))) by (nonlinear_arith)
        requires
            qa * qb >= 1,
    ;
    assert((na * pb < nb * pa) <==> (na * pb * (qa * qb) < nb * pa * (qa * qb))) by (nonlinear_arith)
        requires
            qa * qb >= 1,
    ;
    assert(((na * qa) * pk <= (nb * qb) * pk) <==> (na * qa <= nb * qb)) by (nonlinear_arith)
        requires
            pk >= 1,
    ;
    assert(((na * qa) * pk < (nb * qb) * pk) <==> (na * qa < nb * qb)) by (nonlinear_arith)
        requires
            pk >= 1,
    ;
}

/// The exact sum's value is the sum of the values.
pub proof fn lemma_exact_sum_at(a: DecV, b: DecV, k: nat)
    requires
        a.2 <= k,
        b.2 <= k,
    ensures
        exact_sum(a, b).2 <= k,
        at_scale(exact_sum(a, b), k) == at_scale(a, k) + at_scale(b, k),
{
    let s: nat = if a.2 >= b.2 { a.2 } else { b.2 };
    let x = dv_num(a) * pow10((s - a.2) as nat) + dv_num(b) * pow10((s - b.2) as nat);
    assert(dv_num(scaled_dv(x, s)) == x);
    lemma_pow10_add((s - a.2) as nat, (k - s) as nat);
    lemma_pow10_add((s - b.2) as nat, (k - s) as nat);
    assert((s - a.2) + (k - s) == k - a.2);
    assert((s - b.2) + (k - s) == k - b.2);
    let p = pow10((k - s) as nat);
    let (na, nb, pa, pb) = (dv_num(a), dv_num(b), pow10((s - a.2) as nat), pow10((s - b.2) as nat));
    assert(x * p == na * (pa * p) + nb * (pb * p)) by (nonlinear_arith)
        requires
            x == na * pa + nb * pb,
    ;
}

/// `<=` is transitive.
pub proof fn lemma_le_trans(a: DecV, b: DecV, c: DecV)
    requires
        dv_le(a, b),
        dv_le(b, c),
    ensures
        dv_le(a, c),
{
    let k = a.2 + b.2 + c.2;
    lemma_compare_at(a, b, k);
    lemma_compare_at(b, c, k);
    lemma_compare_at(a, c, k);
}

/// A value numerically equal to another compares the same way.
pub proof fn lemma_eq_le(a: DecV, b: DecV, c: DecV)
    requires
        dv_eq(a, b),
    ensures
        dv_le(a, c) <==> dv_le(b, c),
        dv_le(c, a) <==> dv_le(c, b),
        dv_lt(a, c) <==> dv_lt(b, c),
        dv_lt(c, a) <==> dv_lt(c, b),
{
    let k = a.2 + b.2 + c.2;
    lemma_compare_at(a, b, k);
    lemma_compare_at(a, c, k);
    lemma_compare_at(b, c, k);
    lemma_compare_at(c, a, k);
    lemma_compare_at(c, b, k);
}

/// Rounding a value between 0 and 1 to six decimals keeps it between 0 and
/// 1.
pub proof fn lemma_round6_unit(v: DecV)
    requires
        dv_le(int_dv(0), v),
        dv_le(v, int_dv(1)),
    ensures
        dv_le(int_dv(0), round_dp_spec(v, 6)),
        dv_le(round_dp_spec(v, 6), int_dv(1)),
{
    let r = round_dp_spec(v, 6);
    lemma_pow10_positive(v.2);
    lemma_pow10_positive(6);
    if v.2 <= 6 {
    } else if v.1 == 0 {
        assert(dv_num(r) == 0);
        assert(0 * pow10(6) == 0);
        assert(dv_num(r) * pow10(0) == 0);
    } else {
        let p = pow10((v.2 - 6) as nat);
        lemma_pow10_positive((v.2 - 6) as nat);
        lemma_pow10_add((v.2 - 6) as nat, 6);
        assert((v.2 - 6) + 6 == v.2);
        let m = v.1 as int;
        assert(!v.0) by {
            if v.0 {
                assert(dv_num(v) < 0);
                assert(dv_num(v) * pow10(0) < 0);
                assert(dv_num(int_dv(0)) * pow10(v.2) == 0) by (nonlinear_arith)
                    requires
                        dv_num(int_dv(0)) == 0,
                ;
            }
        }
        assert(m * 1 <= 1 * pow10(v.2));
        let q = m / p;
        let rm = m % p;
        assert(m == p * q + rm && 0 <= rm < p) by (nonlinear_arith)
            requires
                p >= 1,
                q == m / p,
                rm == m % p,
        ;
        assert(pow10(v.2) == p * pow10(6));
        assert(pow10(6) == 1000000) by {
            reveal_with_fuel(pow10, 7);
        }
        assert(q <= 1000000) by (nonlinear_arith)
            requires
                m == p * q + rm,
                0 <= rm,
                m <= p * 1000000,
                p >= 1,
        ;
        assert(q == 1000000 ==> rm == 0) by (nonlinear_arith)
            requires
                m == p * q + rm,
                0 <= rm,
                m <= p * 1000000,
                p >= 1,
        ;
        assert(r.1 <= 1000000);
        assert(!r.0);
        assert(dv_num(r) * pow10(0) <= 1 * pow10(6));
        assert(dv_num(int_dv(0)) * pow10(6) == 0) by (nonlinear_arith)
            requires
                dv_num(int_dv(0)) == 0,
        ;
    }
}


/// Rounding to six decimals keeps a value of at least 0.000001 at least
/// 0.000001, and so above zero.
pub proof fn lemma_round6_floor(v: DecV)
    requires
        dv_le(scaled_dv(1, 6), v),
    ensures
        dv_le(scaled_dv(1, 6), round_dp_spec(v, 6)),
        dv_lt(int_dv(0), round_dp_spec(v, 6)),
{
    let r = round_dp_spec(v, 6);
    lemma_pow10_positive(v.2);
    lemma_pow10_positive(6);
    assert(pow10(6) == 1000000) by {
        reveal_with_fuel(pow10, 7);
    }
    if v.2 > 6 {
        let p = pow10((v.2 - 6) as nat);
        lemma_pow10_positive((v.2 - 6) as nat);
        lemma_pow10_add((v.2 - 6) as nat, 6);
        assert((v.2 - 6) + 6 == v.2);
        assert(pow10(v.2) == p * 1000000);
        assert(dv_num(scaled_dv(1, 6)) == 1);
        assert(1 * pow10(v.2) <= dv_num(v) * 1000000);
        assert(!v.0) by {
            if v.0 {
                assert(dv_num(v) <= 0);
                assert(dv_num(v) * 1000000 <= 0) by (nonlinear_arith)
                    requires
                        dv_num(v) <= 0,
                ;
            }
        }
        let m = v.1 as int;
        assert(dv_num(v) == m);
        assert(p <= m) by (nonlinear_arith)
            requires
                p * 1000000 <= m * 1000000,
        ;
        let q = m / p;
        assert(q >= 1) by (nonlinear_arith)
            requires
                p >= 1,
                p <= m,
                q == m / p,
        ;
        assert(m != 0);
        assert(r.1 >= q);
        assert(!r.0);
        assert(r.2 == 6);
        assert(dv_num(r) == r.1 as int);
        assert(1 * pow10(6) <= dv_num(r) * pow10(6)) by (nonlinear_arith)
            requires
                dv_num(r) >= 1,
                pow10(6) >= 1,
        ;
    }
    lemma_pow10_positive(r.2);
    assert(dv_num(scaled_dv(1, 6)) == 1);
    assert(1 * pow10(r.2) <= dv_num(r) * pow10(6));
    assert(dv_num(r) >= 1) by (nonlinear_arith)
        requires
            1 * pow10(r.2) <= dv_num(r) * pow10(6),
            pow10(r.2) >= 1,
            pow10(6) == 1000000,
    ;
    assert(dv_num(int_dv(0)) * pow10(r.2) == 0) by (nonlinear_arith)
        requires
            dv_num(int_dv(0)) == 0,
    ;
    assert(pow10(0) == 1);
}

} // verus!
