//! Confidence and evidence: how Augur says what it does not know.
//!
//! A coach that states a guess as a fact is worse than one that says nothing.
//! Missing data stays missing and uncertainty is stated, so the vocabulary for
//! expressing both lives here rather than being re-invented per game.
//!
//! A confidence is an IEEE-754 binary32 value in `0.0..=1.0`. The library
//! holds it by its bit pattern (what `f32::to_bits` returns), so that the range
//! and `NaN` rules are checked exactly, on integers, and carried as a type
//! invariant: a [`Confidence`] outside the closed unit interval cannot exist.

use vstd::prelude::*;

use vstd::arithmetic::power2::{
    lemma_pow2_pos, lemma_pow2_strictly_increases, lemma_pow2_unfold, pow2,
};
use vstd::std_specs::cmp::{PartialEqSpec, PartialOrdSpec};

verus! {

/// Sign bit of an IEEE-754 binary32 bit pattern.
pub open spec fn f32_sign(bits: u32) -> u32 {
    bits >> 31u32
}

/// Biased exponent field of an IEEE-754 binary32 bit pattern.
pub open spec fn f32_exponent(bits: u32) -> u32 {
    (bits >> 23u32) & 0xffu32
}

/// Fraction (mantissa) field of an IEEE-754 binary32 bit pattern.
pub open spec fn f32_fraction(bits: u32) -> u32 {
    bits & 0x7f_ffffu32
}

/// The bit pattern encodes a `NaN`: all exponent bits set, fraction non-zero.
pub open spec fn f32_is_nan(bits: u32) -> bool {
    f32_exponent(bits) == 0xffu32 && f32_fraction(bits) != 0u32
}

/// The bit pattern encodes a number `x` with `0.0 <= x <= 1.0`.
///
/// A non-negative value is at most `1.0 = 2^0 * 1.0` exactly when its biased
/// exponent is below 127, or equals 127 with a zero fraction. The only
/// negative-signed encoding that is `>= 0.0` is `-0.0`. `NaN` and the
/// infinities fall outside.
pub open spec fn f32_in_unit_interval(bits: u32) -> bool {
    if f32_sign(bits) == 0u32 {
        f32_exponent(bits) < 127u32 || (f32_exponent(bits) == 127u32 && f32_fraction(bits) == 0u32)
    } else {
        f32_exponent(bits) == 0u32 && f32_fraction(bits) == 0u32
    }
}

/// The bit pattern encodes `+0.0` or `-0.0`.
pub open spec fn f32_is_zero(bits: u32) -> bool {
    f32_exponent(bits) == 0u32 && f32_fraction(bits) == 0u32
}

/// Two non-`NaN` bit patterns denote the same number: they are identical, or
/// both are zeros (`0.0 == -0.0`).
pub open spec fn f32_same_value(a: u32, b: u32) -> bool {
    a == b || (f32_is_zero(a) && f32_is_zero(b))
}

/// Position of a unit-interval value on the number line: `-0.0` sits with
/// `+0.0`; every other non-negative binary32 value orders as its bit pattern.
pub open spec fn f32_unit_rank(bits: u32) -> u32 {
    if f32_is_zero(bits) {
        0u32
    } else {
        bits
    }
}

/// The magnitude of a finite binary32 value with biased exponent `e` and
/// fraction `f`, scaled by `2^149` so that it is a whole number: a normal value
/// `(1 + f / 2^23) * 2^(e - 127)` becomes `(2^23 + f) * 2^(e - 1)`, a
/// subnormal value `f * 2^-149` becomes `f`.
pub open spec fn f32_scaled_magnitude(e: u32, f: u32) -> int {
    if e == 0u32 {
        f as int
    } else {
        (0x80_0000 + f) * pow2((e - 1) as nat)
    }
}

/// The number a finite binary32 bit pattern denotes, times `2^149`.
pub open spec fn f32_scaled_value(bits: u32) -> int {
    let m = f32_scaled_magnitude(f32_exponent(bits), f32_fraction(bits));
    if f32_sign(bits) == 0u32 {
        m
    } else {
        -m
    }
}

/// A larger exponent, or the same exponent and a larger fraction, denotes a
/// larger magnitude.
proof fn lemma_scaled_magnitude_increases(e1: u32, f1: u32, e2: u32, f2: u32)
    requires
        f1 < 0x80_0000u32,
        f2 < 0x80_0000u32,
        e1 < e2 || (e1 == e2 && f1 < f2),
    ensures
        f32_scaled_magnitude(e1, f1) < f32_scaled_magnitude(e2, f2),
{
    if e1 == e2 {
        if e1 != 0u32 {
            let p = pow2((e1 - 1) as nat);
            lemma_pow2_pos((e1 - 1) as nat);
            vstd::arithmetic::mul::lemma_mul_strict_inequality(0x80_0000 + f1, 0x80_0000 + f2, p as int);
        }
    } else {
        let low = pow2(e1 as nat);
        lemma_pow2_pos(e1 as nat);
        if e1 == 0u32 {
            vstd::arithmetic::power2::lemma2_to64();
            assert(f32_scaled_magnitude(e1, f1) < 0x80_0000 * low);
        } else {
            let q = pow2((e1 - 1) as nat);
            lemma_pow2_unfold(e1 as nat);
            lemma_pow2_pos((e1 - 1) as nat);
            vstd::arithmetic::mul::lemma_mul_strict_inequality(0x80_0000 + f1, 0x100_0000, q as int);
            assert(0x100_0000 * q == 0x80_0000 * low) by (nonlinear_arith)
                requires
                    low == 2 * q,
            ;
            assert(f32_scaled_magnitude(e1, f1) < 0x80_0000 * low);
        }
        let high = pow2((e2 - 1) as nat);
        if ((e2 - 1) as nat) > e1 as nat {
            lemma_pow2_strictly_increases(e1 as nat, (e2 - 1) as nat);
        }
        assert(low <= high);
        vstd::arithmetic::mul::lemma_mul_inequality(0x80_0000, 0x80_0000 + f2, high as int);
        vstd::arithmetic::mul::lemma_mul_inequality(low as int, high as int, 0x80_0000);
        assert(0x80_0000 * low <= f32_scaled_magnitude(e2, f2)) by (nonlinear_arith)
            requires
                low * 0x80_0000 <= high * 0x80_0000,
                0x80_0000 * high <= (0x80_0000 + f2) * high,
                f32_scaled_magnitude(e2, f2) == (0x80_0000 + f2) * high,
        ;
    }
}

/// Within the unit interval, the rank that orders confidences agrees with the
/// numbers they denote.
proof fn lemma_unit_rank_is_numeric(x: u32, y: u32)
    requires
        f32_in_unit_interval(x),
        f32_in_unit_interval(y),
    ensures
        (f32_unit_rank(x) < f32_unit_rank(y)) == (f32_scaled_value(x) < f32_scaled_value(y)),
        (f32_unit_rank(x) == f32_unit_rank(y)) == (f32_scaled_value(x) == f32_scaled_value(y)),
        f32_same_value(x, y) == (f32_scaled_value(x) == f32_scaled_value(y)),
{
    lemma_unit_value_sign(x);
    lemma_unit_value_sign(y);
    if !f32_is_zero(x) && !f32_is_zero(y) {
        if x < y {
            lemma_bits_order_fields(x, y);
            lemma_scaled_magnitude_increases(f32_exponent(x), f32_fraction(x), f32_exponent(y), f32_fraction(y));
        } else if y < x {
            lemma_bits_order_fields(y, x);
            lemma_scaled_magnitude_increases(f32_exponent(y), f32_fraction(y), f32_exponent(x), f32_fraction(x));
        }
    }
}

/// A unit-interval pattern that is not a zero has a clear sign bit, is a
/// positive integer, and denotes a positive number; a zero denotes zero.
proof fn lemma_unit_value_sign(x: u32)
    requires
        f32_in_unit_interval(x),
    ensures
        f32_fraction(x) < 0x80_0000u32,
        f32_is_zero(x) ==> f32_scaled_value(x) == 0 && f32_unit_rank(x) == 0u32,
        !f32_is_zero(x) ==> f32_sign(x) == 0u32 && x > 0u32 && f32_scaled_value(x) > 0
            && f32_unit_rank(x) == x,
{
    assert(f32_fraction(x) < 0x80_0000u32) by (bit_vector);
    assert(f32_in_unit_interval(x) && !f32_is_zero(x) ==> f32_sign(x) == 0u32 && x > 0u32)
        by (bit_vector);
    let e = f32_exponent(x);
    let f = f32_fraction(x);
    if !f32_is_zero(x) && e != 0u32 {
        lemma_pow2_pos((e - 1) as nat);
        vstd::arithmetic::mul::lemma_mul_strictly_positive(0x80_0000 + f, pow2((e - 1) as nat) as int);
    }
}

/// Two patterns with a clear sign bit order as their exponent, then their
/// fraction.
proof fn lemma_bits_order_fields(x: u32, y: u32)
    requires
        f32_sign(x) == 0u32,
        f32_sign(y) == 0u32,
        x < y,
    ensures
        f32_exponent(x) < f32_exponent(y) || (f32_exponent(x) == f32_exponent(y) && f32_fraction(x)
            < f32_fraction(y)),
{
    assert((x >> 31u32) == 0u32 && (y >> 31u32) == 0u32 && x < y ==> (((x >> 23u32) & 0xffu32) < ((
    y >> 23u32) & 0xffu32) || (((x >> 23u32) & 0xffu32) == ((y >> 23u32) & 0xffu32) && (x
        & 0x7f_ffffu32) < (y & 0x7f_ffffu32)))) by (bit_vector);
}

/// A confidence in `0.0..=1.0`, held as its binary32 bit pattern.
///
/// `NaN` is rejected: a comparison against `NaN` silently answers `false`,
/// which would make every confidence threshold in the pipeline quietly fail
/// open.
#[derive(Debug, Clone, Copy)]
pub struct Confidence {
    bits: u32,
}

/// Why a [`Confidence`] could not be constructed.
#[derive(Debug, Clone, Copy, PartialEq, Eq, Structural)]
pub enum ConfidenceError {
    /// The value was below 0.0 or above 1.0.
    OutOfRange,
    /// The value was `NaN`, which cannot be meaningfully compared.
    NotANumber,
}

impl ConfidenceError {
    /// The human-readable description of this error.
    pub fn message(&self) -> (r: &'static str)
        ensures
            r@ == match self {
                ConfidenceError::OutOfRange => "confidence must be within 0.0..=1.0"@,
                ConfidenceError::NotANumber => "confidence must not be NaN"@,
            },
    {
        match self {
            ConfidenceError::OutOfRange => "confidence must be within 0.0..=1.0",
            ConfidenceError::NotANumber => "confidence must not be NaN",
        }
    }
}

impl View for Confidence {
    type V = u32;

    closed spec fn view(&self) -> u32 {
        self.bits
    }
}

impl Confidence {
    #[verifier::type_invariant]
    spec fn within_unit_interval(self) -> bool {
        f32_in_unit_interval(self.bits)
    }

    /// Complete absence of confidence (`0.0`).
    pub fn none() -> (r: Self)
        ensures
            r@ == 0u32,
    {
        assert(f32_in_unit_interval(0u32)) by (bit_vector);
        Confidence { bits: 0 }
    }

    /// Full confidence (`1.0`). Reserved for deterministically read values.
    pub fn certain() -> (r: Self)
        ensures
            r@ == 0x3f80_0000u32,
    {
        assert(f32_in_unit_interval(0x3f80_0000u32)) by (bit_vector);
        Confidence { bits: 0x3f80_0000 }
    }

    /// Construct a confidence from the bit pattern of an `f32`, rejecting
    /// `NaN` and values outside `0.0..=1.0`.
    pub fn new(bits: u32) -> (r: Result<Self, ConfidenceError>)
        ensures
            f32_is_nan(bits) ==> r == Err::<Confidence, ConfidenceError>(ConfidenceError::NotANumber),
            !f32_is_nan(bits) && !f32_in_unit_interval(bits) ==> r == Err::<Confidence, ConfidenceError>(
                ConfidenceError::OutOfRange,
            ),
            f32_in_unit_interval(bits) ==> (r matches Ok(c) && c@ == bits),
    {
        assert((bits & 0x7f80_0000u32 == 0x7f80_0000u32 && bits & 0x007f_ffffu32 != 0u32)
            == f32_is_nan(bits)) by (bit_vector);
        assert(!f32_is_nan(bits) ==> ((bits <= 0x3f80_0000u32 || bits == 0x8000_0000u32)
            == f32_in_unit_interval(bits))) by (bit_vector);
        if bits & 0x7f80_0000 == 0x7f80_0000 && bits & 0x007f_ffff != 0 {
            return Err(ConfidenceError::NotANumber);
        }
        if bits <= 0x3f80_0000 || bits == 0x8000_0000 {
            Ok(Confidence { bits })
        } else {
            Err(ConfidenceError::OutOfRange)
        }
    }

    /// The underlying value, as the bit pattern of an `f32`.
    pub fn get(self) -> (r: u32)
        ensures
            r == self@,
            f32_in_unit_interval(r),
            !f32_is_nan(r),
    {
        proof {
            use_type_invariant(&self);
            let b = self.bits;
            assert(f32_in_unit_interval(b) ==> !f32_is_nan(b)) by (bit_vector);
        }
        self.bits
    }
}

impl PartialEq for Confidence {
    fn eq(&self, other: &Self) -> (r: bool) {
        let a = self.bits;
        let b = other.bits;
        assert((a & 0x7fff_ffffu32 == 0u32) == f32_is_zero(a)) by (bit_vector);
        assert((b & 0x7fff_ffffu32 == 0u32) == f32_is_zero(b)) by (bit_vector);
        a == b || (a & 0x7fff_ffff == 0 && b & 0x7fff_ffff == 0)
    }
}

impl vstd::std_specs::cmp::PartialEqSpecImpl for Confidence {
    open spec fn obeys_eq_spec() -> bool {
        true
    }

    open spec fn eq_spec(&self, other: &Self) -> bool {
        f32_same_value(self@, other@)
    }
}

impl PartialOrd for Confidence {
    fn partial_cmp(&self, other: &Self) -> (r: Option<core::cmp::Ordering>) {
        let a = self.bits;
        let b = other.bits;
        assert((a & 0x7fff_ffffu32 == 0u32) == f32_is_zero(a)) by (bit_vector);
        assert((b & 0x7fff_ffffu32 == 0u32) == f32_is_zero(b)) by (bit_vector);
        let ka: u32 = if a & 0x7fff_ffff == 0 { 0 } else { a };
        let kb: u32 = if b & 0x7fff_ffff == 0 { 0 } else { b };
        if ka < kb {
            Some(core::cmp::Ordering::Less)
        } else if ka == kb {
            Some(core::cmp::Ordering::Equal)
        } else {
            Some(core::cmp::Ordering::Greater)
        }
    }
}

impl vstd::std_specs::cmp::PartialOrdSpecImpl for Confidence {
    open spec fn obeys_partial_cmp_spec() -> bool {
        true
    }

    open spec fn partial_cmp_spec(&self, other: &Self) -> Option<core::cmp::Ordering> {
        let ka = f32_unit_rank(self@);
        let kb = f32_unit_rank(other@);
        if ka < kb {
            Some(core::cmp::Ordering::Less)
        } else if ka == kb {
            Some(core::cmp::Ordering::Equal)
        } else {
            Some(core::cmp::Ordering::Greater)
        }
    }
}

/// Confidences compare as the numbers they denote: `a < b` exactly when
/// `a`'s value is smaller than `b`'s, they compare equal (and `==` holds)
/// exactly when they denote the same number (so `-0.0` equals `0.0`), and
/// otherwise `a > b`.
pub proof fn lemma_confidence_order_is_numeric(a: Confidence, b: Confidence)
    requires
        f32_in_unit_interval(a@),
        f32_in_unit_interval(b@),
    ensures
        (a.partial_cmp_spec(&b) == Some(core::cmp::Ordering::Less)) == (f32_scaled_value(a@)
            < f32_scaled_value(b@)),
        (a.partial_cmp_spec(&b) == Some(core::cmp::Ordering::Equal)) == (f32_scaled_value(a@)
            == f32_scaled_value(b@)),
        (a.partial_cmp_spec(&b) == Some(core::cmp::Ordering::Greater)) == (f32_scaled_value(a@)
            > f32_scaled_value(b@)),
        a.eq_spec(&b) == (f32_scaled_value(a@) == f32_scaled_value(b@)),
{
    lemma_unit_rank_is_numeric(a@, b@);
}

/// Per-field extraction evidence.
///
/// The envelope's top-level confidence is an overall figure; this is where a
/// consumer learns that `gold` was read with near-certainty while `tier` was a
/// guess.
#[derive(Debug, Clone, PartialEq)]
pub struct FieldEvidence {
    /// Dotted path of the field within the game-owned `state` payload.
    pub field: String,
    /// Confidence for this field specifically.
    pub confidence: Confidence,
}

/// Privacy classification of the data a record refers to.
///
/// Carried on the envelope so that anything downstream, logs, diagnostics
/// bundles, feedback uploads, can make a retention decision without needing to
/// know how the data was produced.
#[derive(Debug, Clone, Copy, PartialEq, Eq, Structural)]
pub enum Privacy {
    /// Derived from a frame that exists only for the duration of a turn and is
    /// never persisted. The default for screen capture.
    LocalFrameTransient,
    /// Text derived from a frame, retained locally as part of match state.
    LocalDerivedText,
    /// The user explicitly opted in to retaining this record.
    UserRetained,
}

} // verus!
