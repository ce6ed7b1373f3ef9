use css_contrast::error::BasicErrorKind;
use css_contrast::{parse_color, resolve_color, CssColor, ParsedColor, ParsingError, ZERO};
use cssparser::{Parser, ParserInput};
use palette::rgb::Rgba;
use palette::{Hsl, IntoColor, WithAlpha};

fn number(bits: u32) -> f32 {
    f32::from_bits(bits)
}

fn close(found: u32, expected: f32) -> bool {
    (number(found) - expected).abs() < 1e-6
}

#[test]
fn currentcolor_is_unsupported() {
    assert_eq!(
        parse_color("currentcolor"),
        Err(ParsingError::UnsupportedValue("currentcolor is not supported in this context"))
    );
    assert!(matches!(parse_color("CurrentColor"), Err(ParsingError::UnsupportedValue(_))));
}

#[test]
fn other_color_models_are_unsupported() {
    assert_eq!(
        parse_color("lab(50% 40 20)"),
        Err(ParsingError::UnsupportedValue("format is not supported"))
    );
    assert!(matches!(parse_color("lch(50% 40 20)"), Err(ParsingError::UnsupportedValue(_))));
    assert!(matches!(parse_color("hwb(120 10% 20%)"), Err(ParsingError::UnsupportedValue(_))));
    assert!(matches!(
        parse_color("color(display-p3 1 0 0)"),
        Err(ParsingError::UnsupportedValue(_))
    ));
}

#[test]
fn malformed_text_is_invalid_syntax() {
    assert_eq!(parse_color("not-a-color"), Err(ParsingError::InvalidSyntax("invalid syntax")));
    assert!(matches!(parse_color(""), Err(ParsingError::InvalidSyntax(_))));
    assert!(matches!(parse_color("rgb(1, 2)"), Err(ParsingError::InvalidSyntax(_))));
    assert!(matches!(parse_color("foo(1, 2, 3)"), Err(ParsingError::InvalidSyntax(_))));
    assert!(matches!(parse_color("#12345"), Err(ParsingError::InvalidSyntax(_))));
}

#[test]
fn rgb_is_scaled_to_fractions() {
    match parse_color("rgb(255, 0, 0)") {
        Ok(ParsedColor::Rgba { red, green, blue, alpha }) => {
            assert!(close(red, 1.0));
            assert!(close(green, 0.0));
            assert!(close(blue, 0.0));
            assert!(close(alpha, 1.0));
        }
        other => panic!("{:?}", other),
    }
}

#[test]
fn rgba_keeps_its_alpha() {
    match parse_color("rgba(0, 128, 255, 0.25)") {
        Ok(ParsedColor::Rgba { red, green, blue, alpha }) => {
            assert!(close(red, 0.0));
            assert!(close(green, 128.0 / 255.0));
            assert!(close(blue, 1.0));
            assert_eq!(number(alpha), 0.25);
        }
        other => panic!("{:?}", other),
    }
}

#[test]
fn names_and_hashes_are_rgb() {
    let red = parse_color("rgb(255, 0, 0)");
    assert!(red.is_ok());
    assert_eq!(parse_color("red"), red);
    assert_eq!(parse_color("#ff0000"), red);
    assert_eq!(parse_color("#f00"), red);
}

#[test]
fn hsl_keeps_its_components() {
    match parse_color("hsl(0, 100%, 50%)") {
        Ok(ParsedColor::Hsla { hue, saturation, lightness, alpha }) => {
            assert_eq!(number(hue), 0.0);
            assert_eq!(number(saturation), 1.0);
            assert_eq!(number(lightness), 0.5);
            assert_eq!(number(alpha), 1.0);
        }
        other => panic!("{:?}", other),
    }
}

#[test]
fn hsl_of_pure_red_converts_to_red() {
    match parse_color("hsl(0, 100%, 50%)") {
        Ok(ParsedColor::Hsla { hue, saturation, lightness, alpha }) => {
            let color: Rgba = Hsl::new(number(hue), number(saturation), number(lightness))
                .with_alpha(number(alpha))
                .into_color();
            assert!((color.red - 1.0).abs() < 1e-6);
            assert!(color.green.abs() < 1e-6);
            assert!(color.blue.abs() < 1e-6);
            assert!((color.alpha - 1.0).abs() < 1e-6);
        }
        other => panic!("{:?}", other),
    }
}

#[test]
fn hsla_keeps_its_alpha() {
    match parse_color("hsla(120, 50%, 25%, 0.5)") {
        Ok(ParsedColor::Hsla { hue, saturation, lightness, alpha }) => {
            assert_eq!(number(hue), 120.0);
            assert_eq!(number(saturation), 0.5);
            assert_eq!(number(lightness), 0.25);
            assert_eq!(number(alpha), 0.5);
        }
        other => panic!("{:?}", other),
    }
}

#[test]
fn resolve_gives_each_error() {
    assert_eq!(resolve_color(None), Err(ParsingError::InvalidSyntax("invalid syntax")));
    assert_eq!(
        resolve_color(Some(CssColor::CurrentColor)),
        Err(ParsingError::UnsupportedValue("currentcolor is not supported in this context"))
    );
    assert_eq!(
        resolve_color(Some(CssColor::Other)),
        Err(ParsingError::UnsupportedValue("format is not supported"))
    );
}

#[test]
fn resolve_scales_the_channels_and_keeps_alpha() {
    let alpha = 0.75f32.to_bits();
    match resolve_color(Some(CssColor::Rgba { red: 255, green: 0, blue: 51, alpha })) {
        Ok(ParsedColor::Rgba { red, green, blue, alpha: kept }) => {
            assert_eq!(number(red), 1.0);
            assert_eq!(number(green), 0.0);
            assert!(close(blue, 0.2));
            assert_ne!(red, 255);
            assert_ne!(blue, 51);
            assert_eq!(kept, alpha);
        }
        other => panic!("{:?}", other),
    }
}

#[test]
fn resolve_puts_zero_for_missing_components() {
    let resolved = resolve_color(Some(CssColor::Hsl {
        hue: None,
        saturation: None,
        lightness: None,
        alpha: None,
    }));
    assert_eq!(
        resolved,
        Ok(ParsedColor::Hsla { hue: ZERO, saturation: ZERO, lightness: ZERO, alpha: ZERO })
    );
    assert_eq!(number(ZERO), 0.0);
    assert!(number(ZERO).is_sign_positive());
}

#[test]
fn resolve_keeps_the_components_that_are_there() {
    let hue = 210.0f32.to_bits();
    let lightness = 0.4f32.to_bits();
    let resolved = resolve_color(Some(CssColor::Hsl {
        hue: Some(hue),
        saturation: None,
        lightness: Some(lightness),
        alpha: None,
    }));
    assert_eq!(
        resolved,
        Ok(ParsedColor::Hsla { hue, saturation: ZERO, lightness, alpha: ZERO })
    );
}

#[test]
fn hsl_with_none_components_defaults_to_zero() {
    assert_eq!(
        parse_color("hsl(none none none / none)"),
        Ok(ParsedColor::Hsla { hue: ZERO, saturation: ZERO, lightness: ZERO, alpha: ZERO })
    );
}

#[test]
fn reason_is_carried_by_both_kinds() {
    assert_eq!(ParsingError::InvalidSyntax("a").reason(), "a");
    assert_eq!(ParsingError::UnsupportedValue("b").reason(), "b");
}

#[test]
fn error_from_kind_names_unexpected_tokens_only() {
    assert_eq!(
        ParsingError::from(BasicErrorKind::UnexpectedToken),
        ParsingError::InvalidSyntax("Unexpected token")
    );
    for kind in [
        BasicErrorKind::EndOfInput,
        BasicErrorKind::AtRuleInvalid,
        BasicErrorKind::AtRuleBodyInvalid,
        BasicErrorKind::QualifiedRuleInvalid,
    ] {
        assert_eq!(ParsingError::from(kind), ParsingError::InvalidSyntax("Unknown error"));
    }
}

#[test]
fn error_from_an_unexpected_token() {
    let mut input = ParserInput::new("12");
    let mut parser = Parser::new(&mut input);
    let error = parser.expect_ident().map(|_| ()).unwrap_err();
    assert_eq!(ParsingError::from(error), ParsingError::InvalidSyntax("Unexpected token"));
}

#[test]
fn error_from_the_end_of_input() {
    let mut input = ParserInput::new("");
    let mut parser = Parser::new(&mut input);
    let error = parser.next().map(|_| ()).unwrap_err();
    assert_eq!(ParsingError::from(error), ParsingError::InvalidSyntax("Unknown error"));
}
