//! Decimal numbers as plain values: a signed mantissa of at most 96 bits
//! and a scale, the number of digits after the decimal point.
//!
//! The arithmetic itself is done by the `rust_decimal` crate. The functions
//! of this module that call it are marked `external_body`; what each of them
//! claims of `rust_decimal` is said in its doc comment.

use vstd::prelude::*;
use vstd::std_specs::cmp::PartialEqSpecImpl;

verus! {

/// The largest magnitude of a mantissa: `2^96 - 1`.
pub const MAX_MANTISSA: i128 = 0xFFFF_FFFF_FFFF_FFFF_FFFF_FFFF;

/// The largest scale.
pub const MAX_SCALE: u32 = 28;

/// `10^n`.
pub open spec fn pow10(n: nat) -> int
    decreases n,
{
    if n == 0 {
        1
    } else {
        10 * pow10((n - 1) as nat)
    }
}

/// `m * 10^k`: `m` with `k` zeros after it.
pub open spec fn shifted(m: int, k: nat) -> int
    decreases k,
{
    if k == 0 {
        m
    } else {
        10 * shifted(m, (k - 1) as nat)
    }
}

/// `m` without its last `k` digits, for an `m` that is not negative:
/// `m / 10^k`, rounded down.
pub open spec fn without_last_digits(m: int, k: nat) -> int
    decreases k,
{
    if k == 0 {
        m
    } else {
        without_last_digits(m / 10, (k - 1) as nat)
    }
}

/// The number `mantissa / 10^scale`, together with how it is written.
pub struct DecimalView {
    pub mantissa: int,
    pub scale: nat,
}

impl DecimalView {
    /// The mantissa fits in 96 bits and the scale is at most 28.
    pub open spec fn wf(self) -> bool {
        &&& -MAX_MANTISSA <= self.mantissa <= MAX_MANTISSA
        &&& self.scale <= MAX_SCALE
    }

    /// `self < other` as numbers.
    pub open spec fn lt(self, other: DecimalView) -> bool {
        shifted(self.mantissa, other.scale) < shifted(other.mantissa, self.scale)
    }

    /// `self` and `other` are the same number, whatever their scales.
    pub open spec fn same_number(self, other: DecimalView) -> bool {
        shifted(self.mantissa, other.scale) == shifted(other.mantissa, self.scale)
    }

    /// Zero with scale 0.
    pub open spec fn zero() -> DecimalView {
        DecimalView { mantissa: 0, scale: 0 }
    }

    /// The smaller of the two numbers; `self` where they are the same number.
    pub open spec fn min(self, other: DecimalView) -> DecimalView {
        if other.lt(self) {
            other
        } else {
            self
        }
    }

    /// `self` cut off after `dp` decimal places: the digits beyond them are
    /// dropped, so the result is never further from zero than `self`.
    pub open spec fn truncated(self, dp: nat) -> DecimalView {
        if self.scale <= dp {
            self
        } else {
            let dropped = (self.scale - dp) as nat;
            DecimalView {
                mantissa: if self.mantissa >= 0 {
                    without_last_digits(self.mantissa, dropped)
                } else {
                    -without_last_digits(-self.mantissa, dropped)
                },
                scale: dp,
            }
        }
    }

    /// The product written with all its digits.
    pub open spec fn exact_product(self, other: DecimalView) -> DecimalView {
        DecimalView {
            mantissa: self.mantissa * other.mantissa,
            scale: self.scale + other.scale,
        }
    }

    /// The sum written at the larger of the two scales.
    pub open spec fn exact_sum(self, other: DecimalView) -> DecimalView {
        let scale = if self.scale >= other.scale {
            self.scale
        } else {
            other.scale
        };
        DecimalView {
            mantissa: shifted(self.mantissa, (scale - self.scale) as nat) + shifted(
                other.mantissa,
                (scale - other.scale) as nat,
            ),
            scale,
        }
    }

    /// The product of two decimals, given what it is rounded to where it
    /// has to be rounded. Zero times anything is zero with scale 0. A
    /// product that can be written exactly is the exact product. Any other
    /// product is `rounded`.
    pub open spec fn mul_or(self, other: DecimalView, rounded: Option<DecimalView>) -> Option<
        DecimalView,
    > {
        if self.mantissa == 0 || other.mantissa == 0 {
            Some(DecimalView::zero())
        } else if self.exact_product(other).wf() {
            Some(self.exact_product(other))
        } else {
            rounded
        }
    }

    /// The product of two decimals, or `None` where it is out of range.
    pub open spec fn checked_mul(self, other: DecimalView) -> Option<DecimalView> {
        self.mul_or(other, rounded_product(self, other))
    }

    /// The sum of two decimals, given what it is where no rule below
    /// settles it. Zero leaves the other operand as it is written. The sum
    /// of two positive decimals whose exact sum can be written is that exact
    /// sum. Any other sum is `rounded`.
    pub open spec fn add_or(self, other: DecimalView, rounded: Option<DecimalView>) -> Option<
        DecimalView,
    > {
        if self.mantissa == 0 {
            Some(other)
        } else if other.mantissa == 0 {
            Some(self)
        } else if self.mantissa > 0 && other.mantissa > 0 && self.exact_sum(other).wf() {
            Some(self.exact_sum(other))
        } else {
            rounded
        }
    }

    /// The sum of two decimals, or `None` where it is out of range.
    pub open spec fn checked_add(self, other: DecimalView) -> Option<DecimalView> {
        self.add_or(other, rounded_sum(self, other))
    }

    /// The quotient of two decimals, given what it is where no rule below
    /// settles it. There is none for a zero divisor. Zero divided by
    /// anything else is zero with scale 0. A positive dividend whose
    /// mantissa is a multiple of a positive divisor's mantissa of at most 32
    /// bits, and whose scale is not the smaller one, is divided exactly. Any
    /// other quotient is `rounded`.
    pub open spec fn div_or(self, other: DecimalView, rounded: Option<DecimalView>) -> Option<
        DecimalView,
    > {
        if other.mantissa == 0 {
            None
        } else if self.mantissa == 0 {
            Some(DecimalView::zero())
        } else if self.mantissa > 0 && 0 < other.mantissa <= 0xFFFF_FFFF && self.mantissa
            % other.mantissa == 0 && self.scale >= other.scale {
            Some(
                DecimalView {
                    mantissa: self.mantissa / other.mantissa,
                    scale: (self.scale - other.scale) as nat,
                },
            )
        } else {
            rounded
        }
    }

    /// The quotient of two decimals, or `None` where the divisor is zero or
    /// the quotient is out of range.
    pub open spec fn checked_div(self, other: DecimalView) -> Option<DecimalView> {
        self.div_or(other, rounded_quotient(self, other))
    }
}

/// What `rust_decimal::Decimal::checked_mul` returns for two decimals,
/// neither of them zero, whose exact product cannot be written in 96 bits
/// and 28 decimal places.
pub uninterp spec fn rounded_product(a: DecimalView, b: DecimalView) -> Option<DecimalView>;

/// What `rust_decimal::Decimal::checked_add` returns for two decimals,
/// neither of them zero, that are not both positive or whose exact sum
/// cannot be written in 96 bits.
pub uninterp spec fn rounded_sum(a: DecimalView, b: DecimalView) -> Option<DecimalView>;

/// What `rust_decimal::Decimal::checked_div` returns for two decimals,
/// neither of them zero, outside the case that `DecimalView::div_or` spells
/// out.
pub uninterp spec fn rounded_quotient(a: DecimalView, b: DecimalView) -> Option<DecimalView>;

/// A decimal number.
#[derive(Clone, Copy, Debug)]
pub struct Decimal {
    mantissa: i128,
    scale: u32,
}

impl View for Decimal {
    type V = DecimalView;

    closed spec fn view(&self) -> DecimalView {
        DecimalView { mantissa: self.mantissa as int, scale: self.scale as nat }
    }
}

/// `a * b` where there is an `a`.
pub open spec fn mul_opt(a: Option<DecimalView>, b: DecimalView) -> Option<DecimalView> {
    match a {
        Some(a) => a.checked_mul(b),
        None => None,
    }
}

/// `a + b` where there are both.
pub open spec fn add_opt(a: Option<DecimalView>, b: Option<DecimalView>) -> Option<DecimalView> {
    match (a, b) {
        (Some(a), Some(b)) => a.checked_add(b),
        _ => None,
    }
}

/// The view of what an operation returned, where it returned a decimal.
pub open spec fn view_of(r: Option<Decimal>) -> Option<DecimalView> {
    match r {
        Some(d) => Some(d@),
        None => None,
    }
}

impl Decimal {
    #[verifier::type_invariant]
    pub open spec fn well_formed(self) -> bool {
        self@.wf()
    }

    /// The decimal `num / 10^scale`, or `None` where `scale` is over 28.
    pub fn try_new(num: i64, scale: u32) -> (r: Option<Decimal>)
        ensures
            view_of(r) == if scale <= MAX_SCALE {
                Some(DecimalView { mantissa: num as int, scale: scale as nat })
            } else {
                None
            },
    {
        if scale > MAX_SCALE {
            None
        } else {
            Some(Decimal { mantissa: num as i128, scale })
        }
    }

    /// The decimal `num / 10^scale`, or `None` where `scale` is over 28 or
    /// `num` does not fit in 96 bits.
    pub fn try_from_i128_with_scale(num: i128, scale: u32) -> (r: Option<Decimal>)
        ensures
            view_of(r) == if (DecimalView { mantissa: num as int, scale: scale as nat }).wf() {
                Some(DecimalView { mantissa: num as int, scale: scale as nat })
            } else {
                None
            },
    {
        if scale > MAX_SCALE || num > MAX_MANTISSA || num < -MAX_MANTISSA {
            None
        } else {
            Some(Decimal { mantissa: num, scale })
        }
    }

    /// The decimal `num / 10^scale`.
    pub(crate) fn scaled(num: u32, scale: u32) -> (r: Decimal)
        requires
            scale <= MAX_SCALE,
        ensures
            r@ == (DecimalView { mantissa: num as int, scale: scale as nat }),
    {
        Decimal { mantissa: num as i128, scale }
    }

    /// The whole number `n`, with scale 0.
    pub fn from_u32(n: u32) -> (r: Decimal)
        ensures
            r@ == (DecimalView { mantissa: n as int, scale: 0 }),
    {
        Decimal { mantissa: n as i128, scale: 0 }
    }

    /// The whole number `n`, with scale 0.
    pub fn from_usize(n: usize) -> (r: Decimal)
        ensures
            r@ == (DecimalView { mantissa: n as int, scale: 0 }),
    {
        Decimal { mantissa: n as i128, scale: 0 }
    }

    /// Calls `rust_decimal::Decimal::checked_mul` on the two decimals. The
    /// contract claims of it: a zero operand gives zero with scale 0; a
    /// product that fits in 96 bits at the sum of the two scales, that sum
    /// being at most 28, is returned exactly, at that scale; every other
    /// result is a function of the operands alone, named `rounded_product`;
    /// and the product of two operands that are not negative is not
    /// negative.
    #[verifier::external_body]
    pub(crate) fn checked_mul(self, other: Decimal) -> (r: Option<Decimal>)
        ensures
            view_of(r) == self@.mul_or(other@, rounded_product(self@, other@)),
            r matches Some(p) ==> (self@.mantissa >= 0 && other@.mantissa >= 0 ==> p@.mantissa
                >= 0),
    {
        let a = rust_decimal::Decimal::from_i128_with_scale(self.mantissa, self.scale);
        let b = rust_decimal::Decimal::from_i128_with_scale(other.mantissa, other.scale);
        match a.checked_mul(b) {
            Some(p) => Some(Decimal { mantissa: p.mantissa(), scale: p.scale() }),
            None => None,
        }
    }

    /// Calls `rust_decimal::Decimal::checked_add` on the two decimals. The
    /// contract claims of it: where one operand is zero the other is
    /// returned as it is written; the sum of two positive operands that fits
    /// in 96 bits at the larger of the two scales is returned exactly, at
    /// that scale; every other result is a function of the operands alone,
    /// named `rounded_sum`; and the sum of two operands that are not
    /// negative is not negative.
    #[verifier::external_body]
    pub(crate) fn checked_add(self, other: Decimal) -> (r: Option<Decimal>)
        ensures
            view_of(r) == self@.add_or(other@, rounded_sum(self@, other@)),
            r matches Some(p) ==> (self@.mantissa >= 0 && other@.mantissa >= 0 ==> p@.mantissa
                >= 0),
    {
        let a = rust_decimal::Decimal::from_i128_with_scale(self.mantissa, self.scale);
        let b = rust_decimal::Decimal::from_i128_with_scale(other.mantissa, other.scale);
        match a.checked_add(b) {
            Some(p) => Some(Decimal { mantissa: p.mantissa(), scale: p.scale() }),
            None => None,
        }
    }

    /// Calls `rust_decimal::Decimal::checked_div` on the two decimals. The
    /// contract claims of it: a zero divisor gives `None`; a zero dividend
    /// gives zero with scale 0; a positive dividend whose mantissa is a
    /// multiple of the mantissa of a positive divisor of at most 32 bits,
    /// and whose scale is at least the divisor's, gives the quotient of the
    /// mantissas at the difference of the scales; every other result is a
    /// function of the operands alone, named `rounded_quotient`; and the
    /// quotient of a dividend that is not negative by a positive divisor is
    /// not negative.
    #[verifier::external_body]
    pub(crate) fn checked_div(self, other: Decimal) -> (r: Option<Decimal>)
        ensures
            view_of(r) == self@.div_or(other@, rounded_quotient(self@, other@)),
            r matches Some(q) ==> (self@.mantissa >= 0 && other@.mantissa > 0 ==> q@.mantissa
                >= 0),
    {
        let a = rust_decimal::Decimal::from_i128_with_scale(self.mantissa, self.scale);
        let b = rust_decimal::Decimal::from_i128_with_scale(other.mantissa, other.scale);
        match a.checked_div(b) {
            Some(q) => Some(Decimal { mantissa: q.mantissa(), scale: q.scale() }),
            None => None,
        }
    }

    /// Calls `rust_decimal::Decimal::min` on the two decimals. The contract
    /// claims of it: it returns the second operand where that one is the
    /// smaller number, and the first operand otherwise, each as it is
    /// written.
    #[verifier::external_body]
    pub(crate) fn min(self, other: Decimal) -> (r: Decimal)
        ensures
            r@ == self@.min(other@),
    {
        let a = rust_decimal::Decimal::from_i128_with_scale(self.mantissa, self.scale);
        let b = rust_decimal::Decimal::from_i128_with_scale(other.mantissa, other.scale);
        let m = a.min(b);
        Decimal { mantissa: m.mantissa(), scale: m.scale() }
    }

    /// Calls `rust_decimal::Decimal::round_dp_with_strategy` with the
    /// strategy `ToZero`. The contract claims of it: a decimal with at most
    /// `dp` decimal places is returned as it is written; of any other the
    /// digits beyond the first `dp` decimal places are dropped and the scale
    /// becomes `dp`.
    #[verifier::external_body]
    pub(crate) fn round_dp_toward_zero(self, dp: u32) -> (r: Decimal)
        ensures
            r@ == self@.truncated(dp as nat),
    {
        let a = rust_decimal::Decimal::from_i128_with_scale(self.mantissa, self.scale);
        let t = a.round_dp_with_strategy(dp, rust_decimal::RoundingStrategy::ToZero);
        Decimal { mantissa: t.mantissa(), scale: t.scale() }
    }

    /// Calls `==` of `rust_decimal::Decimal` on the two decimals. The
    /// contract claims of it: it holds exactly where the two are the same
    /// number, whatever their scales.
    #[verifier::external_body]
    pub(crate) fn same_number(self, other: Decimal) -> (r: bool)
        ensures
            r == self@.same_number(other@),
    {
        let a = rust_decimal::Decimal::from_i128_with_scale(self.mantissa, self.scale);
        let b = rust_decimal::Decimal::from_i128_with_scale(other.mantissa, other.scale);
        a == b
    }

    /// The mantissa: the number without its decimal point.
    pub fn mantissa(&self) -> (m: i128)
        ensures
            m == self@.mantissa,
            self@.wf(),
    {
        proof {
            use_type_invariant(self);
        }
        self.mantissa
    }

    /// The number of digits after the decimal point.
    pub fn scale(&self) -> (s: u32)
        ensures
            s == self@.scale,
            self@.wf(),
    {
        proof {
            use_type_invariant(self);
        }
        self.scale
    }
}

/// Every power of ten is positive.
pub proof fn lemma_pow10_positive(n: nat)
    ensures
        pow10(n) > 0,
    decreases n,
{
    if n > 0 {
        lemma_pow10_positive((n - 1) as nat);
    }
}

/// Zeros after a number multiply it by a power of ten.
pub proof fn lemma_shifted_is_product(m: int, k: nat)
    ensures
        shifted(m, k) == m * pow10(k),
    decreases k,
{
    if k > 0 {
        lemma_shifted_is_product(m, (k - 1) as nat);
        let rest = pow10((k - 1) as nat);
        assert(10 * (m * rest) == m * (10 * rest)) by (nonlinear_arith);
    }
}

/// Dropping the last digits of a number divides it by a power of ten.
pub proof fn lemma_without_last_digits_is_quotient(m: int, k: nat)
    requires
        m >= 0,
    ensures
        without_last_digits(m, k) == m / pow10(k),
    decreases k,
{
    if k > 0 {
        let rest = pow10((k - 1) as nat);
        lemma_pow10_positive((k - 1) as nat);
        lemma_without_last_digits_is_quotient(m / 10, (k - 1) as nat);
        vstd::arithmetic::div_mod::lemma_div_denominator(m, 10, rest);
    }
}

proof fn lemma_quotient_brackets(m: int, unit: int)
    by (nonlinear_arith)
    requires
        m >= 0,
        unit > 0,
    ensures
        0 <= (m / unit) * unit <= m < (m / unit + 1) * unit,
        m / unit >= 0,
{
}

/// Cutting a decimal off after `dp` places leaves at most `dp` places,
/// keeps its sign, never moves it away from zero, and moves it by less than
/// one unit of the last place kept: with `unit = 10^(scale - dp)` and `t` the
/// new mantissa, `|t| * unit <= |mantissa| < (|t| + 1) * unit`.
pub proof fn lemma_truncated_bounds(a: DecimalView, dp: nat)
    ensures
        a.truncated(dp).scale <= dp || a.truncated(dp) == a,
        a.scale <= dp ==> a.truncated(dp) == a,
        a.scale > dp ==> a.truncated(dp).scale == dp,
        a.mantissa >= 0 ==> a.truncated(dp).mantissa >= 0,
        a.mantissa <= 0 ==> a.truncated(dp).mantissa <= 0,
        a.scale > dp && a.mantissa >= 0 ==> a.truncated(dp).mantissa * pow10(
            (a.scale - dp) as nat,
        ) <= a.mantissa < (a.truncated(dp).mantissa + 1) * pow10((a.scale - dp) as nat),
        a.scale > dp && a.mantissa <= 0 ==> (a.truncated(dp).mantissa - 1) * pow10(
            (a.scale - dp) as nat,
        ) < a.mantissa <= a.truncated(dp).mantissa * pow10((a.scale - dp) as nat),
{
    if a.scale > dp {
        let unit = pow10((a.scale - dp) as nat);
        lemma_pow10_positive((a.scale - dp) as nat);
        if a.mantissa >= 0 {
            lemma_without_last_digits_is_quotient(a.mantissa, (a.scale - dp) as nat);
            lemma_quotient_brackets(a.mantissa, unit);
            let t = a.mantissa / unit;
            assert((t - 1) * unit == t * unit - unit) by (nonlinear_arith);
        } else {
            lemma_without_last_digits_is_quotient(-a.mantissa, (a.scale - dp) as nat);
            lemma_quotient_brackets(-a.mantissa, unit);
            let t = (-a.mantissa) / unit;
            assert((-t - 1) * unit == -((t + 1) * unit)) by (nonlinear_arith);
            assert((-t) * unit == -(t * unit)) by (nonlinear_arith);
        }
    }
}

/// Two decimals are equal where they are the same number: `1.50 == 1.5`.
impl PartialEq for Decimal {
    fn eq(&self, other: &Decimal) -> (r: bool) {
        self.same_number(*other)
    }
}

impl PartialEqSpecImpl for Decimal {
    open spec fn obeys_eq_spec() -> bool {
        true
    }

    open spec fn eq_spec(&self, other: &Decimal) -> bool {
        self@.same_number(other@)
    }
}

} // verus!
