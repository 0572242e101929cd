//! CVSS and EPSS figures.
//!
//! The figures are binary floating-point numbers of 64 bits. The library holds
//! their bits, which decide how they compare, and the texts that stand for them.

use vstd::arithmetic::power2::{
    lemma_pow2_adds, lemma_pow2_pos, lemma_pow2_strictly_increases, pow2,
};
use vstd::prelude::*;


verus! {

/// A figure: its bits in the IEEE 754 format `binary64`, and its text in the
/// shortest form that reads back as the same figure, with one, and with two digits
/// after the point.
#[derive(Debug)]
pub struct Score {
    pub bits: u64,
    pub text: String,
    pub tenths: String,
    pub hundredths: String,
}

/// The model of a [`Score`].
#[verifier::ext_equal]
pub struct ScoreView {
    pub bits: u64,
    pub text: Seq<char>,
    pub tenths: Seq<char>,
    pub hundredths: Seq<char>,
}

impl View for Score {
    type V = ScoreView;

    open spec fn view(&self) -> ScoreView {
        ScoreView {
            bits: self.bits,
            text: self.text@,
            tenths: self.tenths@,
            hundredths: self.hundredths@,
        }
    }
}

/// The view of an optional score.
pub open spec fn opt_score(s: Option<Score>) -> Option<ScoreView> {
    match s {
        Some(t) => Some(t@),
        None => None,
    }
}

impl Clone for Score {
    fn clone(&self) -> (r: Score)
        ensures
            r@ == self@,
    {
        Score {
            bits: self.bits,
            text: self.text.clone(),
            tenths: self.tenths.clone(),
            hundredths: self.hundredths.clone(),
        }
    }
}

/// The optional score as a new value with the same figure and texts.
pub fn copy_score(s: &Option<Score>) -> (r: Option<Score>)
    ensures
        opt_score(r) == opt_score(*s),
{
    match s {
        Some(t) => Some(t.clone()),
        None => None,
    }
}

// --- what the bits stand for ---------------------------------------------------------

/// The bits of the positive infinity; larger ones are negative or no number.
pub const INFINITY: u64 = 0x7ff0_0000_0000_0000;

/// The bits of the negative zero; only negative figures have larger ones.
pub const NEGATIVE_ZERO: u64 = 0x8000_0000_0000_0000;

pub const FOUR: u64 = 0x4010_0000_0000_0000;

pub const SEVEN: u64 = 0x401c_0000_0000_0000;

pub const NINE: u64 = 0x4022_0000_0000_0000;

pub const TEN: u64 = 0x4024_0000_0000_0000;

/// The exponent field.
pub open spec fn exponent(bits: u64) -> nat {
    ((bits / 0x10_0000_0000_0000) % 0x800) as nat
}

/// The fraction field.
pub open spec fn fraction(bits: u64) -> nat {
    (bits % 0x10_0000_0000_0000) as nat
}

/// The sign bit is set.
pub open spec fn negative(bits: u64) -> bool {
    bits >= 0x8000_0000_0000_0000
}

/// The bits stand for no number.
pub open spec fn is_nan(bits: u64) -> bool {
    exponent(bits) == 0x7ff && fraction(bits) != 0
}

/// The magnitude in units of 2^-1074, the smallest positive figure of the format.
/// (For the infinities it is larger than that of every finite figure.)
pub open spec fn units(bits: u64) -> nat {
    if exponent(bits) == 0 {
        fraction(bits)
    } else {
        (0x10_0000_0000_0000 + fraction(bits)) * pow2((exponent(bits) - 1) as nat)
    }
}

/// The whole number `n` in the units of [`units`].
pub open spec fn whole(n: nat) -> nat {
    n * pow2(1074)
}

/// The figure is a number and at least `n`, where `n` is positive.
pub open spec fn at_least(bits: u64, n: nat) -> bool {
    !is_nan(bits) && !negative(bits) && units(bits) >= whole(n)
}

/// The figure is a number larger than zero.
pub open spec fn positive(bits: u64) -> bool {
    !is_nan(bits) && !negative(bits) && units(bits) > 0
}

/// The figure is a number from zero to `n`. The negative zero is one.
pub open spec fn zero_to(bits: u64, n: nat) -> bool {
    !is_nan(bits) && (units(bits) == 0 || !negative(bits) && units(bits) <= whole(n))
}

/// Figures that are not negative compare as their bits do.
pub proof fn units_grow_with_bits(a: u64, b: u64)
    requires
        a < b <= INFINITY,
    ensures
        units(a) < units(b),
{
    let one: nat = 0x10_0000_0000_0000;
    let ea = exponent(a);
    let eb = exponent(b);
    assert(a as nat == ea * one + fraction(a) && b as nat == eb * one + fraction(b)) by {
        lemma_fields(a);
        lemma_fields(b);
    }
    if ea == eb {
        assert(fraction(a) < fraction(b));
        if ea > 0 {
            let p = pow2((ea - 1) as nat);
            lemma_pow2_pos((ea - 1) as nat);
            assert((one + fraction(a)) * p < (one + fraction(b)) * p) by (nonlinear_arith)
                requires
                    fraction(a) < fraction(b),
                    p > 0,
            ;
        }
    } else {
        assert(ea < eb) by {
            if ea > eb {
                assert(ea * one >= (eb + 1) * one) by (nonlinear_arith)
                    requires
                        ea >= eb + 1,
                        one >= 0,
                ;
            }
        }
        let q = pow2((eb - 1) as nat);
        lemma_pow2_pos((eb - 1) as nat);
        assert((one + fraction(b)) * q >= one * q) by (nonlinear_arith)
            requires
                q > 0,
                fraction(b) >= 0,
        ;
        if ea == 0 {
            assert(one * q >= one) by (nonlinear_arith)
                requires
                    q >= 1,
            ;
        } else {
            let p = pow2((ea - 1) as nat);
            lemma_pow2_pos((ea - 1) as nat);
            lemma_pow2_adds((ea - 1) as nat, 1);
            assert(pow2(1) == 2) by {
                vstd::arithmetic::power2::lemma2_to64();
            }
            assert(pow2(ea) == p * 2);
            if ea < eb - 1 {
                lemma_pow2_strictly_increases(ea, (eb - 1) as nat);
            }
            assert(q >= p * 2);
            assert((one + fraction(a)) * p < one * q) by (nonlinear_arith)
                requires
                    fraction(a) < one,
                    p > 0,
                    q >= p * 2,
            ;
        }
    }
}

proof fn lemma_fields(bits: u64)
    requires
        bits <= INFINITY,
    ensures
        bits as nat == exponent(bits) * 0x10_0000_0000_0000 + fraction(bits),
        exponent(bits) <= 0x7ff,
{
}

/// The bits up to those of the positive infinity are those of the figures that are
/// numbers and have no sign.
proof fn lemma_sign_and_nan(bits: u64)
    ensures
        (bits <= INFINITY) == (!is_nan(bits) && !negative(bits)),
{
    if bits < 0x8000_0000_0000_0000 {
        assert(exponent(bits) == bits / 0x10_0000_0000_0000);
    }
}

proof fn lemma_threshold(bits: u64, mark: u64)
    requires
        mark <= INFINITY,
    ensures
        (mark <= bits <= INFINITY) == (!is_nan(bits) && !negative(bits) && units(bits) >= units(
            mark,
        )),
        (bits <= mark) == (!is_nan(bits) && !negative(bits) && units(bits) <= units(mark)),
{
    lemma_sign_and_nan(bits);
    if bits <= INFINITY {
        if mark < bits {
            units_grow_with_bits(mark, bits);
        }
        if bits < mark {
            units_grow_with_bits(bits, mark);
        }
    }
}

/// A mark with exponent field `e` stands for `n` where its significand says so.
proof fn lemma_mark(mark: u64, n: nat, e: nat)
    requires
        exponent(mark) == e,
        1 <= e <= 1074,
        0x10_0000_0000_0000 + fraction(mark) == n * pow2((1075 - e) as nat),
    ensures
        units(mark) == whole(n),
{
    lemma_pow2_adds((1075 - e) as nat, (e - 1) as nat);
    let p = pow2((1075 - e) as nat);
    let q = pow2((e - 1) as nat);
    assert((n * p) * q == n * (p * q)) by (nonlinear_arith);
}

/// The named marks stand for the numbers that name them.
pub proof fn marks_stand_for_their_numbers()
    ensures
        units(FOUR) == whole(4),
        units(SEVEN) == whole(7),
        units(NINE) == whole(9),
        units(TEN) == whole(10),
{
    vstd::arithmetic::power2::lemma2_to64();
    vstd::arithmetic::power2::lemma2_to64_rest();
    lemma_mark(FOUR, 4, 1025);
    lemma_mark(SEVEN, 7, 1025);
    lemma_mark(NINE, 9, 1026);
    lemma_mark(TEN, 10, 1026);
}

// --- comparing -------------------------------------------------------------------------

/// How severe a CVSS score is.
#[derive(Clone, Copy, Debug, PartialEq, Eq, Structural)]
pub enum Severity {
    Critical,
    High,
    Medium,
    Low,
}

/// The severity of a CVSS score: critical from 9, high from 7, medium from 4, low
/// below that and for what is no number.
pub open spec fn severity_of(bits: u64) -> Severity {
    if at_least(bits, 9) {
        Severity::Critical
    } else if at_least(bits, 7) {
        Severity::High
    } else if at_least(bits, 4) {
        Severity::Medium
    } else {
        Severity::Low
    }
}

impl Score {
    /// The severity of the score.
    pub fn severity(&self) -> (r: Severity)
        ensures
            r == severity_of(self.bits),
    {
        proof {
            marks_stand_for_their_numbers();
            lemma_threshold(self.bits, NINE);
            lemma_threshold(self.bits, SEVEN);
            lemma_threshold(self.bits, FOUR);
        }
        if self.bits > INFINITY || self.bits < FOUR {
            Severity::Low
        } else if self.bits >= NINE {
            Severity::Critical
        } else if self.bits >= SEVEN {
            Severity::High
        } else {
            Severity::Medium
        }
    }

    /// Whether the score is a number larger than zero.
    pub fn is_positive(&self) -> (r: bool)
        ensures
            r == positive(self.bits),
    {
        proof {
            lemma_sign_and_nan(self.bits);
            if 0 < self.bits <= INFINITY {
                units_grow_with_bits(0, self.bits);
            }
        }
        0 < self.bits && self.bits <= INFINITY
    }

    /// Whether the score is a number from 0 to 10.
    pub fn in_range(&self) -> (r: bool)
        ensures
            r == zero_to(self.bits, 10),
    {
        proof {
            marks_stand_for_their_numbers();
            lemma_threshold(self.bits, TEN);
            lemma_zero(self.bits);
        }
        self.bits <= TEN || self.bits == NEGATIVE_ZERO
    }
}

/// The two zeros are the only figures of magnitude zero.
proof fn lemma_zero(bits: u64)
    ensures
        units(bits) == 0 <==> bits == 0 || bits == NEGATIVE_ZERO,
{
    let e = exponent(bits);
    if e > 0 {
        lemma_pow2_pos((e - 1) as nat);
        assert((0x10_0000_0000_0000 + fraction(bits)) * pow2((e - 1) as nat) > 0)
            by (nonlinear_arith)
            requires
                pow2((e - 1) as nat) > 0,
                fraction(bits) >= 0,
        ;
    }
}

// --- laws --------------------------------------------------------------------------------

/// The severity steps up at the figures 4, 7 and 9, and only there. Negative figures,
/// and bits that stand for no number, are of the lowest severity.
pub proof fn severity_steps_up_at_its_marks(bits: u64)
    ensures
        severity_of(bits) == Severity::Critical <==> 0x4022_0000_0000_0000 <= bits
            <= 0x7ff0_0000_0000_0000,
        severity_of(bits) == Severity::High <==> 0x401c_0000_0000_0000 <= bits
            < 0x4022_0000_0000_0000,
        severity_of(bits) == Severity::Medium <==> 0x4010_0000_0000_0000 <= bits
            < 0x401c_0000_0000_0000,
        severity_of(bits) == Severity::Low <==> bits < 0x4010_0000_0000_0000 || bits
            > 0x7ff0_0000_0000_0000,
{
    marks_stand_for_their_numbers();
    lemma_threshold(bits, NINE);
    lemma_threshold(bits, SEVEN);
    lemma_threshold(bits, FOUR);
}

/// The figures from 0 to 10 are those whose bits are not above those of 10, and the
/// negative zero. The positive ones are those between the zero and the infinity.
pub proof fn figures_from_zero_to_ten(bits: u64)
    ensures
        zero_to(bits, 10) <==> bits <= 0x4024_0000_0000_0000 || bits == 0x8000_0000_0000_0000,
        positive(bits) <==> 0 < bits <= 0x7ff0_0000_0000_0000,
{
    marks_stand_for_their_numbers();
    lemma_threshold(bits, TEN);
    lemma_zero(bits);
    lemma_sign_and_nan(bits);
    if 0 < bits <= INFINITY {
        units_grow_with_bits(0, bits);
    }
}

} // verus!
