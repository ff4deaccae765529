//! Fixed-point decimal numbers: a signed 96-bit mantissa and a power-of-ten scale.
//!
//! Arithmetic on them is carried out by `rust_decimal`; this module holds the value model
//! that the rest of the library reasons about.
use vstd::prelude::*;

verus! {

/// Largest magnitude of a mantissa: 2^96 - 1.
pub const MAX_MANTISSA: i128 = 79228162514264337593543950335;

/// Largest number of fractional digits.
pub const MAX_SCALE: u32 = 28;

/// The number `mantissa / 10^scale`.
#[derive(Clone, Copy, Debug, PartialEq, Eq, Structural)]
pub struct Dec {
    pub mantissa: i128,
    pub scale: u32,
}

/// 10 to the power `n`.
pub open spec fn pow10(n: nat) -> int
    decreases n,
{
    if n == 0 {
        1
    } else {
        10 * pow10((n - 1) as nat)
    }
}

/// Powers of ten are positive.
pub proof fn lemma_pow10_positive(n: nat)
    ensures
        pow10(n) > 0,
    decreases n,
{
    if n > 0 {
        lemma_pow10_positive((n - 1) as nat);
    }
}

/// Powers of ten multiply by adding exponents.
pub proof fn lemma_pow10_add(m: nat, n: nat)
    ensures
        pow10(m + n) == pow10(m) * pow10(n),
    decreases m,
{
    if m > 0 {
        lemma_pow10_add((m - 1) as nat, n);
        assert(pow10(m + n) == 10 * pow10((m - 1 + n) as nat));
        assert(10 * (pow10((m - 1) as nat) * pow10(n)) == (10 * pow10((m - 1) as nat)) * pow10(n))
            by (nonlinear_arith);
    }
}

/// Two (mantissa, scale) pairs denote the same rational number.
pub open spec fn same_value(a: (int, int), b: (int, int)) -> bool {
    a.0 * pow10(b.1 as nat) == b.0 * pow10(a.1 as nat)
}

/// The pair is within the range of the decimal representation.
pub open spec fn representable(m: int, s: int) -> bool {
    -(MAX_MANTISSA as int) <= m <= MAX_MANTISSA as int && 0 <= s <= MAX_SCALE as int
}

/// What `rust_decimal` returns for the checked product of two decimals.
pub uninterp spec fn decimal_product(a: (int, int), b: (int, int)) -> Option<(int, int)>;

/// The checked product: zero when a factor is zero, exact whenever the product of the
/// mantissas fits at the summed scale, as `rust_decimal` computes it otherwise.
pub open spec fn product_of(a: (int, int), b: (int, int)) -> Option<(int, int)> {
    if a.0 == 0 || b.0 == 0 {
        Some((0int, 0int))
    } else if representable(a.0 * b.0, a.1 + b.1) {
        Some((a.0 * b.0, a.1 + b.1))
    } else {
        decimal_product(a, b)
    }
}

/// What `rust_decimal` returns for the checked quotient of two decimals.
pub uninterp spec fn decimal_quotient(a: (int, int), b: (int, int)) -> Option<(int, int)>;

/// `q` is a decimal whose product with `b` is exactly `a`.
pub open spec fn exact_quotient(q: (int, int), a: (int, int), b: (int, int)) -> bool {
    representable(q.0, q.1) && same_value((q.0 * b.0, q.1 + b.1), a)
}

/// What is known of a checked quotient `r` of `a` by `b`: absent for a zero divisor, and,
/// for a nonzero one, of the exact quotient's value whenever that is representable.
pub open spec fn quotient_bounds(r: Option<(int, int)>, a: (int, int), b: (int, int)) -> bool {
    &&& b.0 == 0 ==> r is None
    &&& b.0 != 0 ==> forall|q: (int, int)|
        #[trigger] exact_quotient(q, a, b) ==> r is Some && same_value(r->0, q)
}

/// What `rust_decimal` returns for the checked sum of two decimals.
pub uninterp spec fn decimal_sum(a: (int, int), b: (int, int)) -> Option<(int, int)>;

/// What `rust_decimal` returns for the checked difference of two decimals.
pub uninterp spec fn decimal_difference(a: (int, int), b: (int, int)) -> Option<(int, int)>;

/// The checked sum: the other operand when one is zero, exact at equal scales whenever the
/// sum of the mantissas fits, as `rust_decimal` computes it otherwise.
pub open spec fn sum_of(a: (int, int), b: (int, int)) -> Option<(int, int)> {
    if a.0 == 0 {
        Some(b)
    } else if b.0 == 0 {
        Some(a)
    } else if a.1 == b.1 && representable(a.0 + b.0, a.1) {
        Some((a.0 + b.0, a.1))
    } else {
        decimal_sum(a, b)
    }
}

/// The checked difference: the negated subtrahend when the minuend is zero, the minuend
/// when the subtrahend is zero, exact at equal scales whenever the difference of the
/// mantissas fits, as `rust_decimal` computes it otherwise.
pub open spec fn difference_of(a: (int, int), b: (int, int)) -> Option<(int, int)> {
    if a.0 == 0 {
        Some((-b.0, b.1))
    } else if b.0 == 0 {
        Some(a)
    } else if a.1 == b.1 && representable(a.0 - b.0, a.1) {
        Some((a.0 - b.0, a.1))
    } else {
        decimal_difference(a, b)
    }
}

/// What `rust_decimal` returns for the difference of two decimals, held at the range bounds.
pub uninterp spec fn decimal_saturating_difference(a: (int, int), b: (int, int)) -> (int, int);

impl View for Dec {
    type V = (int, int);

    open spec fn view(&self) -> (int, int) {
        (self.mantissa as int, self.scale as int)
    }
}

/// The value pairs of an optional decimal.
pub open spec fn view_opt(r: Option<Dec>) -> Option<(int, int)> {
    match r {
        Some(d) => Some(d@),
        None => None,
    }
}

/// `r` is the optional decimal that `o` describes.
pub open spec fn lifts(r: Option<Dec>, o: Option<(int, int)>) -> bool {
    match o {
        Some(v) => r is Some && r->0@ == v,
        None => r is None,
    }
}

impl Dec {
    /// The mantissa and scale are within the decimal range.
    pub open spec fn wf(&self) -> bool {
        representable(self.mantissa as int, self.scale as int)
    }

    /// The decimal `mantissa / 10^scale`, when both parts are within range.
    pub fn from_parts(mantissa: i128, scale: u32) -> (r: Option<Dec>)
        ensures
            representable(mantissa as int, scale as int) ==> r == Some(Dec { mantissa, scale }),
            !representable(mantissa as int, scale as int) ==> r is None,
    {
        if -MAX_MANTISSA <= mantissa && mantissa <= MAX_MANTISSA && scale <= MAX_SCALE {
            Some(Dec { mantissa, scale })
        } else {
            None
        }
    }

    /// The whole number `n`.
    pub fn from_int(n: i64) -> (r: Dec)
        ensures
            r@ == (n as int, 0int),
            r.wf(),
    {
        Dec { mantissa: n as i128, scale: 0 }
    }

    /// Zero at scale zero.
    pub open spec fn zero_spec() -> Dec {
        Dec { mantissa: 0, scale: 0 }
    }

    /// Zero.
    pub fn zero() -> (r: Dec)
        ensures
            r == Dec::zero_spec(),
            r@ == (0int, 0int),
            r.wf(),
    {
        Dec { mantissa: 0, scale: 0 }
    }

    pub fn mantissa(&self) -> (r: i128)
        ensures
            r == self.mantissa,
    {
        self.mantissa
    }

    pub fn scale(&self) -> (r: u32)
        ensures
            r == self.scale,
    {
        self.scale
    }

    /// The negated number: the mantissa changes sign, the scale stays.
    pub fn neg(&self) -> (r: Dec)
        requires
            self.wf(),
        ensures
            r@ == (-self.mantissa as int, self.scale as int),
            r.wf(),
    {
        Dec { mantissa: -self.mantissa, scale: self.scale }
    }

    /// The number is zero, at whatever scale.
    pub fn is_zero(&self) -> (r: bool)
        ensures
            r == (self.mantissa == 0),
    {
        self.mantissa == 0
    }
}

/// An absent figure counts as zero.
pub fn or_zero(d: Option<Dec>) -> (r: Dec)
    ensures
        d is Some ==> r == d->0,
        d is None ==> r == Dec::zero_spec(),
{
    match d {
        Some(v) => v,
        None => Dec { mantissa: 0, scale: 0 },
    }
}

/// Relies on `rust_decimal::Decimal::checked_mul`: `None` only on overflow; a zero factor
/// gives zero, and a product whose mantissa fits in 96 bits at the summed scale is returned
/// as it stands (`mul_impl` and `finish_mul` rescale only past 96 bits or past the largest
/// scale).
#[verifier::external_body]
pub(crate) fn checked_mul(a: Dec, b: Dec) -> (r: Option<Dec>)
    requires
        a.wf(),
        b.wf(),
    ensures
        lifts(r, product_of(a@, b@)),
        a@.0 != 0 && b@.0 != 0 && !representable(a@.0 * b@.0, a@.1 + b@.1) ==> lifts(
            r,
            decimal_product(a@, b@),
        ),
        r is Some ==> r->0.wf(),
{
    let x = rust_decimal::Decimal::from_i128_with_scale(a.mantissa, a.scale);
    let y = rust_decimal::Decimal::from_i128_with_scale(b.mantissa, b.scale);
    x.checked_mul(y).map(|d| Dec { mantissa: d.mantissa(), scale: d.scale() })
}

/// Relies on `rust_decimal::Decimal::checked_div`: `None` on a zero divisor or on overflow;
/// a quotient that is representable exactly is returned with that value (`div_impl` and its
/// remainder loops scale up until the remainder is zero, and round only when it is not).
#[verifier::external_body]
pub(crate) fn checked_div(a: Dec, b: Dec) -> (r: Option<Dec>)
    requires
        a.wf(),
        b.wf(),
    ensures
        lifts(r, decimal_quotient(a@, b@)),
        r is Some ==> r->0.wf(),
        quotient_bounds(view_opt(r), a@, b@),
{
    let x = rust_decimal::Decimal::from_i128_with_scale(a.mantissa, a.scale);
    let y = rust_decimal::Decimal::from_i128_with_scale(b.mantissa, b.scale);
    x.checked_div(y).map(|d| Dec { mantissa: d.mantissa(), scale: d.scale() })
}

/// Relies on `rust_decimal::Decimal::checked_add`: `None` only on overflow; a zero operand
/// gives the other one, and operands of equal scale whose sum fits in 96 bits add exactly
/// (`add_sub_internal`: the zero cases, `fast_add`, the 64-bit path, `aligned_add`).
#[verifier::external_body]
pub(crate) fn checked_add(a: Dec, b: Dec) -> (r: Option<Dec>)
    requires
        a.wf(),
        b.wf(),
    ensures
        lifts(r, sum_of(a@, b@)),
        a@.0 != 0 && b@.0 != 0 && !(a@.1 == b@.1 && representable(a@.0 + b@.0, a@.1)) ==> lifts(
            r,
            decimal_sum(a@, b@),
        ),
        r is Some ==> r->0.wf(),
{
    let x = rust_decimal::Decimal::from_i128_with_scale(a.mantissa, a.scale);
    let y = rust_decimal::Decimal::from_i128_with_scale(b.mantissa, b.scale);
    x.checked_add(y).map(|d| Dec { mantissa: d.mantissa(), scale: d.scale() })
}

/// Relies on `rust_decimal::Decimal::checked_sub`: `None` only on overflow; `0 - x` is `x`
/// negated at its scale, `x - 0` is `x`, and operands of equal scale whose difference fits in
/// 96 bits subtract exactly (`add_sub_internal`: the zero cases, `fast_add`, the 64-bit path,
/// `aligned_add`).
#[verifier::external_body]
pub(crate) fn checked_sub(a: Dec, b: Dec) -> (r: Option<Dec>)
    requires
        a.wf(),
        b.wf(),
    ensures
        lifts(r, difference_of(a@, b@)),
        a@.0 != 0 && b@.0 != 0 && !(a@.1 == b@.1 && representable(a@.0 - b@.0, a@.1)) ==> lifts(
            r,
            decimal_difference(a@, b@),
        ),
        r is Some ==> r->0.wf(),
{
    let x = rust_decimal::Decimal::from_i128_with_scale(a.mantissa, a.scale);
    let y = rust_decimal::Decimal::from_i128_with_scale(b.mantissa, b.scale);
    x.checked_sub(y).map(|d| Dec { mantissa: d.mantissa(), scale: d.scale() })
}

/// Relies on `rust_decimal::Decimal::saturating_sub`: the difference, held at the bounds.
#[verifier::external_body]
pub(crate) fn saturating_sub(a: Dec, b: Dec) -> (r: Dec)
    requires
        a.wf(),
        b.wf(),
    ensures
        r@ == decimal_saturating_difference(a@, b@),
        r.wf(),
{
    let x = rust_decimal::Decimal::from_i128_with_scale(a.mantissa, a.scale);
    let y = rust_decimal::Decimal::from_i128_with_scale(b.mantissa, b.scale);
    let d = x.saturating_sub(y);
    Dec { mantissa: d.mantissa(), scale: d.scale() }
}

} // verus!
