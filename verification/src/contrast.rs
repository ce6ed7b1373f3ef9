//! WCAG 2.0 relative luminance, contrast ratio and best-contrast selection.

use vstd::prelude::*;
use crate::color::RGB;
use crate::gamma::{lemma_linear_intensity_bounds, linear_intensity, transform_color_value};

verus! {

/// The luminance scale: a luminance `y` stands for the real number
/// `y / LUMINANCE_ONE`. It is `UNIT` times the common denominator of the
/// channel weights.
pub const LUMINANCE_ONE: u64 = 10_000_000_000_000;

/// The flare term 0.05 of the contrast formula, in luminance units.
pub const FLARE: u64 = 500_000_000_000;

/// Relative luminance: `0.2126 R + 0.7152 G + 0.0722 B` over the linear-light
/// channel intensities, in units of `1 / LUMINANCE_ONE`.
pub open spec fn luminance(color: RGB) -> int {
    2126 * linear_intensity(color.r) + 7152 * linear_intensity(color.g) + 722 * linear_intensity(
        color.b,
    )
}

/// A fraction of two integers, as contracts speak of it.
pub struct Fraction {
    pub numerator: int,
    pub denominator: int,
}

/// Whether the fraction `x` is strictly greater than the fraction `y`, both
/// with positive denominators.
pub open spec fn exceeds(x: Fraction, y: Fraction) -> bool {
    x.numerator * y.denominator > y.numerator * x.denominator
}

/// The contrast ratio of two colours: `(L1 + 0.05) / (L2 + 0.05)`, where `L1`
/// is the greater and `L2` the smaller of the two luminances.
pub open spec fn contrast_ratio(a: RGB, b: RGB) -> Fraction {
    if luminance(a) > luminance(b) {
        Fraction { numerator: luminance(a) + FLARE, denominator: luminance(b) + FLARE }
    } else {
        Fraction { numerator: luminance(b) + FLARE, denominator: luminance(a) + FLARE }
    }
}

/// The darkest colour.
pub open spec fn is_black(color: RGB) -> bool {
    color.r == 0 && color.g == 0 && color.b == 0
}

/// The lightest colour.
pub open spec fn is_white(color: RGB) -> bool {
    color.r == 255 && color.g == 255 && color.b == 255
}

/// A contrast ratio, held exactly as the fraction `lighter / darker` of two
/// luminances, each with the flare term added.
#[derive(Clone, Copy, Debug)]
pub struct ContrastRatio {
    pub lighter: u64,
    pub darker: u64,
}

impl View for ContrastRatio {
    type V = Fraction;

    open spec fn view(&self) -> Fraction {
        Fraction { numerator: self.lighter as int, denominator: self.darker as int }
    }
}

impl ContrastRatio {
    /// Whether this is the ratio of two luminances: both terms lie between
    /// the flare term and full luminance plus flare, the lighter on top.
    pub open spec fn wf(self) -> bool {
        FLARE <= self.darker <= self.lighter <= LUMINANCE_ONE + FLARE
    }

    /// Whether this ratio is strictly greater than `other`, decided by
    /// cross-multiplication.
    pub fn exceeds(&self, other: &ContrastRatio) -> (greater: bool)
        ensures
            greater == exceeds(self@, other@),
    {
        assert(self.lighter * other.darker <= u128::MAX && other.lighter * self.darker
            <= u128::MAX) by (nonlinear_arith)
            requires
                self.lighter <= u64::MAX,
                self.darker <= u64::MAX,
                other.lighter <= u64::MAX,
                other.darker <= u64::MAX,
        ;
        let left: u128 = (self.lighter as u128) * (other.darker as u128);
        let right: u128 = (other.lighter as u128) * (self.darker as u128);
        left > right
    }
}

/// A luminance lies in `0..=LUMINANCE_ONE`; it is zero only for black and
/// `LUMINANCE_ONE` only for white.
pub proof fn lemma_luminance_bounds(color: RGB)
    ensures
        0 <= luminance(color) <= LUMINANCE_ONE,
        luminance(color) == 0 <==> is_black(color),
        luminance(color) == LUMINANCE_ONE <==> is_white(color),
{
    lemma_linear_intensity_bounds(color.r);
    lemma_linear_intensity_bounds(color.g);
    lemma_linear_intensity_bounds(color.b);
}

/// The contrast ratio does not depend on the order of the two colours.
pub proof fn lemma_contrast_symmetric(a: RGB, b: RGB)
    ensures
        contrast_ratio(a, b) == contrast_ratio(b, a),
{
}

/// The contrast ratio lies between 1 and 21. It is 1 exactly when the two
/// luminances are equal, and 21 exactly for black against white.
pub proof fn lemma_contrast_range(a: RGB, b: RGB)
    ensures
        contrast_ratio(a, b).denominator > 0,
        contrast_ratio(a, b).denominator <= contrast_ratio(a, b).numerator,
        contrast_ratio(a, b).numerator <= 21 * contrast_ratio(a, b).denominator,
        contrast_ratio(a, b).numerator == contrast_ratio(a, b).denominator <==> luminance(a)
            == luminance(b),
        contrast_ratio(a, b).numerator == 21 * contrast_ratio(a, b).denominator <==> (is_black(a)
            && is_white(b)) || (is_white(a) && is_black(b)),
{
    lemma_luminance_bounds(a);
    lemma_luminance_bounds(b);
}

/// The contrast ratio of a colour against itself is 1.
pub proof fn lemma_self_contrast(color: RGB)
    ensures
        contrast_ratio(color, color).numerator == contrast_ratio(color, color).denominator,
{
}

/// Relative luminance of a colour, in units of `1 / LUMINANCE_ONE`.
pub fn relative_luminance(color: &RGB) -> (y: u64)
    ensures
        y == luminance(*color),
        y <= LUMINANCE_ONE,
{
    proof {
        lemma_linear_intensity_bounds(color.r);
        lemma_linear_intensity_bounds(color.g);
        lemma_linear_intensity_bounds(color.b);
    }
    2126 * transform_color_value(color.r) + 7152 * transform_color_value(color.g) + 722
        * transform_color_value(color.b)
}

/// The WCAG contrast ratio of two colours, whatever their order.
pub fn wcag_contrast_ratio(color_1: &RGB, color_2: &RGB) -> (ratio: ContrastRatio)
    ensures
        ratio@ == contrast_ratio(*color_1, *color_2),
        ratio.wf(),
        ratio.darker <= ratio.lighter <= 21 * ratio.darker,
{
    proof {
        lemma_contrast_range(*color_1, *color_2);
    }
    let color_1_luminance = relative_luminance(color_1);
    let color_2_luminance = relative_luminance(color_2);

    let lighter_color_luminance;
    let darker_color_luminance;
    if color_1_luminance > color_2_luminance {
        lighter_color_luminance = color_1_luminance;
        darker_color_luminance = color_2_luminance;
    } else {
        lighter_color_luminance = color_2_luminance;
        darker_color_luminance = color_1_luminance;
    }

    ContrastRatio {
        lighter: lighter_color_luminance + FLARE,
        darker: darker_color_luminance + FLARE,
    }
}

/// Whether candidate `k` is the one with the best contrast against
/// `initial`: its ratio is strictly greater than that of every earlier
/// candidate, and no later candidate has a strictly greater one.
pub open spec fn is_best_candidate(initial: RGB, candidates: Seq<&RGB>, k: int) -> bool {
    &&& 0 <= k < candidates.len()
    &&& forall|j: int|
        0 <= j < k ==> exceeds(
            contrast_ratio(initial, *candidates[k]),
            #[trigger] contrast_ratio(initial, *candidates[j]),
        )
    &&& forall|j: int|
        k < j < candidates.len() ==> !exceeds(
            #[trigger] contrast_ratio(initial, *candidates[j]),
            contrast_ratio(initial, *candidates[k]),
        )
}

/// A fraction that exceeds `y` also exceeds every fraction that does not
/// exceed `y`.
pub proof fn lemma_exceeds_transitive(x: Fraction, y: Fraction, z: Fraction)
    requires
        x.denominator > 0,
        y.denominator > 0,
        z.denominator > 0,
        exceeds(x, y),
        !exceeds(z, y),
    ensures
        exceeds(x, z),
{
    let (xn, xd) = (x.numerator, x.denominator);
    let (yn, yd) = (y.numerator, y.denominator);
    let (zn, zd) = (z.numerator, z.denominator);
    assert((xn * yd) * zd > (yn * xd) * zd) by (nonlinear_arith)
        requires
            xn * yd > yn * xd,
            zd > 0,
    ;
    assert((zn * yd) * xd <= (yn * zd) * xd) by (nonlinear_arith)
        requires
            zn * yd <= yn * zd,
            xd > 0,
    ;
    assert((xn * zd) * yd > (zn * xd) * yd) by (nonlinear_arith)
        requires
            (xn * yd) * zd > (yn * xd) * zd,
            (zn * yd) * xd <= (yn * zd) * xd,
    ;
    assert(xn * zd > zn * xd) by (nonlinear_arith)
        requires
            (xn * zd) * yd > (zn * xd) * yd,
            yd > 0,
    ;
}

/// At most one candidate is the best one.
pub proof fn lemma_best_candidate_unique(initial: RGB, candidates: Seq<&RGB>, k1: int, k2: int)
    requires
        is_best_candidate(initial, candidates, k1),
        is_best_candidate(initial, candidates, k2),
    ensures
        k1 == k2,
{
    let r1 = contrast_ratio(initial, *candidates[k1]);
    let r2 = contrast_ratio(initial, *candidates[k2]);
    if k1 < k2 {
        assert(exceeds(r2, r1));
        assert(!exceeds(r2, r1));
    } else if k2 < k1 {
        assert(exceeds(r1, r2));
        assert(!exceeds(r1, r2));
    }
}

/// No candidate before the best one has the same contrast as the best one:
/// of candidates that tie, the earliest is kept.
pub proof fn lemma_best_candidate_is_first_of_ties(
    initial: RGB,
    candidates: Seq<&RGB>,
    k: int,
    j: int,
)
    requires
        is_best_candidate(initial, candidates, k),
        0 <= j < candidates.len(),
        !exceeds(contrast_ratio(initial, *candidates[k]), contrast_ratio(initial, *candidates[j])),
    ensures
        k <= j,
{
}

/// Of two candidates with the same contrast against `initial`, the first is
/// the best one.
pub proof fn lemma_tie_keeps_first(initial: RGB, first: &RGB, second: &RGB)
    requires
        !exceeds(contrast_ratio(initial, *first), contrast_ratio(initial, *second)),
        !exceeds(contrast_ratio(initial, *second), contrast_ratio(initial, *first)),
    ensures
        is_best_candidate(initial, seq![first, second], 0),
{
}

/// Finds the candidate of `color_options` with the best contrast against
/// `initial_color`: the first one whose ratio no other candidate exceeds.
/// With no candidate at all, `initial_color` itself is returned.
pub fn get_best_contrast<'a>(initial_color: &'a RGB, color_options: &'a Vec<&RGB>) -> (best: &'a RGB)
    ensures
        color_options@.len() == 0 ==> best == initial_color,
        color_options@.len() > 0 ==> exists|k: int|
            is_best_candidate(*initial_color, color_options@, k) && best == color_options@[k],
{
    let mut best_contrast_ratio: Option<ContrastRatio> = None;
    let mut best_contrast_ratio_color: &RGB = initial_color;
    let ghost mut best_index: int = 0;

    let mut i: usize = 0;
    while i < color_options.len()
        invariant
            i <= color_options@.len(),
            i == 0 ==> best_contrast_ratio is None && best_contrast_ratio_color == initial_color,
            i > 0 ==> best_contrast_ratio is Some && best_contrast_ratio->0@ == contrast_ratio(
                *initial_color,
                *color_options@[best_index],
            ) && best_contrast_ratio_color == color_options@[best_index] && is_best_candidate(
                *initial_color,
                color_options@.take(i as int),
                best_index,
            ),
        decreases color_options@.len() - i,
    {
        let color_option: &RGB = color_options[i];
        let ratio = wcag_contrast_ratio(initial_color, color_option);
        let better = match &best_contrast_ratio {
            None => true,
            Some(best) => ratio.exceeds(best),
        };
        proof {
            let before = color_options@.take(i as int);
            let after = color_options@.take(i + 1);
            assert forall|j: int| 0 <= j < i implies after[j] == before[j] by {}
            if better {
                assert forall|j: int| 0 <= j < i implies exceeds(
                    contrast_ratio(*initial_color, *after[i as int]),
                    #[trigger] contrast_ratio(*initial_color, *after[j]),
                ) by {
                    lemma_contrast_range(*initial_color, *after[i as int]);
                    lemma_contrast_range(*initial_color, *after[j]);
                    lemma_contrast_range(*initial_color, *after[best_index]);
                    if j != best_index {
                        lemma_exceeds_transitive(
                            contrast_ratio(*initial_color, *after[i as int]),
                            contrast_ratio(*initial_color, *after[best_index]),
                            contrast_ratio(*initial_color, *after[j]),
                        );
                    }
                }
                best_index = i as int;
            }
        }
        if better {
            best_contrast_ratio = Some(ratio);
            best_contrast_ratio_color = color_option;
        }
        i += 1;
    }
    proof {
        assert(color_options@.take(i as int) == color_options@);
    }
    best_contrast_ratio_color
}

} // verus!
