use css_contrast::contrast::{FLARE, LUMINANCE_ONE};
use css_contrast::gamma::UNIT;
use css_contrast::{
    get_best_contrast, relative_luminance, transform_color_value, wcag_contrast_ratio,
    ContrastRatio, RGB,
};

const BLACK: RGB = RGB { r: 0, g: 0, b: 0 };
const WHITE: RGB = RGB { r: 255, g: 255, b: 255 };
const GRAY: RGB = RGB { r: 128, g: 128, b: 128 };

fn value(ratio: &ContrastRatio) -> f64 {
    ratio.lighter as f64 / ratio.darker as f64
}

fn gamma_expansion(channel: u8) -> f64 {
    let x = channel as f64 / 255.0;
    if x <= 0.03928 {
        x / 12.92
    } else {
        ((x + 0.055) / 1.055).powf(2.4)
    }
}

#[test]
fn transform_color_value_at_the_ends() {
    assert_eq!(transform_color_value(0), 0);
    assert_eq!(transform_color_value(255), UNIT);
}

#[test]
fn transform_color_value_on_the_linear_segment() {
    // 10 / 255 / 12.92 = 0.003035269...
    assert_eq!(transform_color_value(1), 303_526);
    assert_eq!(transform_color_value(10), 3_035_269);
}

#[test]
fn transform_color_value_on_the_power_segment() {
    // ((11 / 255 + 0.055) / 1.055) ^ 2.4 = 0.003346535...
    assert_eq!(transform_color_value(11), 3_346_535);
    assert_eq!(transform_color_value(128), 215_860_500);
    assert_eq!(transform_color_value(254), 991_102_097);
}

#[test]
fn transform_color_value_follows_the_formula() {
    for channel in 0..=255u8 {
        let exact = gamma_expansion(channel) * UNIT as f64;
        let table = transform_color_value(channel) as f64;
        assert!((exact - table).abs() <= 1.0, "channel {}: {} against {}", channel, table, exact);
    }
}

#[test]
fn transform_color_value_is_increasing() {
    for channel in 0..255u8 {
        assert!(transform_color_value(channel) < transform_color_value(channel + 1));
    }
}

#[test]
fn relative_luminance_weighs_the_channels() {
    assert_eq!(relative_luminance(&BLACK), 0);
    assert_eq!(relative_luminance(&WHITE), LUMINANCE_ONE);
    assert_eq!(relative_luminance(&RGB::new(255, 0, 0)), 2_126 * UNIT);
    assert_eq!(relative_luminance(&RGB::new(0, 255, 0)), 7_152 * UNIT);
    assert_eq!(relative_luminance(&RGB::new(0, 0, 255)), 722 * UNIT);
    assert_eq!(relative_luminance(&GRAY), 10_000 * 215_860_500);
}

#[test]
fn relative_luminance_follows_the_formula() {
    let color = RGB::new(12, 200, 77);
    let exact = 0.2126 * gamma_expansion(12) + 0.7152 * gamma_expansion(200)
        + 0.0722 * gamma_expansion(77);
    let found = relative_luminance(&color) as f64 / LUMINANCE_ONE as f64;
    assert!((exact - found).abs() < 1e-9);
}

#[test]
fn contrast_ratio_of_black_and_white_is_twenty_one() {
    let ratio = wcag_contrast_ratio(&BLACK, &WHITE);
    assert_eq!(ratio.lighter, LUMINANCE_ONE + FLARE);
    assert_eq!(ratio.darker, FLARE);
    assert_eq!(ratio.lighter, 21 * ratio.darker);
    assert_eq!(value(&ratio), 21.0);
}

#[test]
fn contrast_ratio_is_symmetric() {
    let pairs = [
        (BLACK, WHITE),
        (GRAY, WHITE),
        (RGB::new(12, 200, 77), RGB::new(250, 3, 99)),
        (RGB::new(1, 2, 3), RGB::new(1, 2, 3)),
    ];
    for (a, b) in pairs {
        let forward = wcag_contrast_ratio(&a, &b);
        let backward = wcag_contrast_ratio(&b, &a);
        assert_eq!(forward.lighter, backward.lighter);
        assert_eq!(forward.darker, backward.darker);
    }
}

#[test]
fn contrast_ratio_lies_between_one_and_twenty_one() {
    let colors = [BLACK, WHITE, GRAY, RGB::new(255, 0, 0), RGB::new(0, 0, 1), RGB::new(9, 99, 199)];
    for a in colors {
        for b in colors {
            let ratio = wcag_contrast_ratio(&a, &b);
            assert!(ratio.darker > 0);
            assert!(ratio.darker <= ratio.lighter);
            assert!(ratio.lighter <= 21 * ratio.darker);
            let extreme = (a == BLACK && b == WHITE) || (a == WHITE && b == BLACK);
            assert_eq!(ratio.lighter == 21 * ratio.darker, extreme);
            assert_eq!(
                ratio.lighter == ratio.darker,
                relative_luminance(&a) == relative_luminance(&b)
            );
        }
    }
}

#[test]
fn contrast_ratio_of_a_color_with_itself_is_one() {
    for color in [BLACK, WHITE, GRAY, RGB::new(17, 34, 51)] {
        let ratio = wcag_contrast_ratio(&color, &color);
        assert_eq!(ratio.lighter, ratio.darker);
        assert_eq!(value(&ratio), 1.0);
    }
}

#[test]
fn contrast_ratio_follows_the_formula() {
    // White against mid gray: 1.05 / (0.2158605 + 0.05) = 3.9494...
    let ratio = wcag_contrast_ratio(&WHITE, &GRAY);
    assert_eq!(ratio.lighter, 10_500_000_000_000);
    assert_eq!(ratio.darker, 2_658_605_000_000);
    let exact = 1.05 / (gamma_expansion(128) + 0.05);
    assert!((value(&ratio) - exact).abs() < 1e-7);
}

#[test]
fn exceeds_compares_by_cross_multiplication() {
    let high = wcag_contrast_ratio(&WHITE, &BLACK);
    let low = wcag_contrast_ratio(&WHITE, &GRAY);
    assert!(high.exceeds(&low));
    assert!(!low.exceeds(&high));
    assert!(!low.exceeds(&low));
    let third = ContrastRatio { lighter: 1, darker: 3 };
    let two_sixths = ContrastRatio { lighter: 2, darker: 6 };
    assert!(!third.exceeds(&two_sixths));
    assert!(!two_sixths.exceeds(&third));
    let largest = ContrastRatio { lighter: u64::MAX, darker: 1 };
    let smallest = ContrastRatio { lighter: 1, darker: u64::MAX };
    assert!(largest.exceeds(&smallest));
    assert!(!smallest.exceeds(&largest));
}

#[test]
fn best_contrast_selects_black_against_white() {
    let candidates = vec![&GRAY, &BLACK];
    let best = get_best_contrast(&WHITE, &candidates);
    assert_eq!(*best, BLACK);
    assert!(std::ptr::eq(best, candidates[1]));
}

#[test]
fn best_contrast_keeps_the_first_of_a_tie() {
    let first = RGB::new(40, 40, 40);
    let second = RGB::new(40, 40, 40);
    let candidates = vec![&first, &second];
    let best = get_best_contrast(&WHITE, &candidates);
    assert!(std::ptr::eq(best, &first));
    assert!(!std::ptr::eq(best, &second));
}

#[test]
fn best_contrast_keeps_the_first_of_a_tie_after_a_worse_candidate() {
    let initial = RGB::new(0, 0, 0);
    let a = RGB::new(255, 255, 255);
    let b = RGB::new(255, 255, 255);
    let darker = RGB::new(200, 200, 200);
    let candidates = vec![&darker, &a, &b];
    let best = get_best_contrast(&initial, &candidates);
    assert!(std::ptr::eq(best, &a));
}

#[test]
fn best_contrast_of_no_candidates_is_the_initial_color() {
    let initial = RGB::new(1, 2, 3);
    let candidates: Vec<&RGB> = Vec::new();
    let best = get_best_contrast(&initial, &candidates);
    assert!(std::ptr::eq(best, &initial));
}

#[test]
fn best_contrast_takes_a_candidate_equal_to_the_initial_color() {
    // A ratio of 1 still beats having no candidate at all.
    let initial = RGB::new(90, 90, 90);
    let same = RGB::new(90, 90, 90);
    let candidates = vec![&same];
    let best = get_best_contrast(&initial, &candidates);
    assert!(std::ptr::eq(best, &same));
}

#[test]
fn best_contrast_takes_a_later_candidate_only_if_strictly_better() {
    let near = RGB::new(250, 250, 250);
    let mid = RGB::new(100, 100, 100);
    let dark = RGB::new(5, 5, 5);
    let candidates = vec![&near, &dark, &mid, &dark];
    let best = get_best_contrast(&WHITE, &candidates);
    assert!(std::ptr::eq(best, candidates[1]));
}

#[test]
fn contrast_ratio_follows_the_formula_on_a_grid() {
    let steps = [0u8, 1, 10, 11, 51, 102, 128, 153, 204, 254, 255];
    for &r in &steps {
        for &g in &steps {
            for &b in &steps {
                let color = RGB::new(r, g, b);
                let other = RGB::new(b, r, g / 2);
                let luminance = |c: &RGB| {
                    0.2126 * gamma_expansion(c.r)
                        + 0.7152 * gamma_expansion(c.g)
                        + 0.0722 * gamma_expansion(c.b)
                };
                let (first, second) = (luminance(&color), luminance(&other));
                let exact = (first.max(second) + 0.05) / (first.min(second) + 0.05);
                let found = value(&wcag_contrast_ratio(&color, &other));
                assert!((found - exact).abs() < 1e-6, "{:?} against {:?}", color, other);
            }
        }
    }
}
