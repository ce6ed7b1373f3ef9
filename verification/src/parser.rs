//! Parsing of CSS colour texts.
//!
//! The CSS colour grammar itself is `cssparser`'s. What it recognised is
//! copied into `CssColor`, and `resolve_color` decides what becomes of it:
//! an error, an RGB colour with its channels scaled to `0.0..=1.0` by
//! `palette`, or an HSL colour with zero in place of each missing component.

use cssparser::{Color, Parser, ParserInput};
use palette::Srgb;
use vstd::prelude::*;
use crate::error::ParsingError;

verus! {

/// A single-precision number, held by its IEEE 754 bit pattern.
pub type Scalar = u32;

/// The bit pattern of positive zero.
pub const ZERO: Scalar = 0;

/// What the CSS colour grammar recognised in a text.
#[allow(inconsistent_fields)]
#[derive(Clone, Copy, Debug, PartialEq, Eq, Structural)]
pub enum CssColor {
    /// The keyword `currentcolor`.
    CurrentColor,
    /// Red, green and blue in a byte each, and an alpha value: from a colour
    /// name, a hash notation, `rgb()` or `rgba()`.
    Rgba { red: u8, green: u8, blue: u8, alpha: Scalar },
    /// `hsl()` or `hsla()`; a component written `none` is missing.
    Hsl {
        hue: Option<Scalar>,
        saturation: Option<Scalar>,
        lightness: Option<Scalar>,
        alpha: Option<Scalar>,
    },
    /// Any other form that the grammar knows.
    Other,
}

/// The notation of a colour, without its components.
#[derive(Clone, Copy, Debug, PartialEq, Eq, Structural)]
pub enum ColorForm {
    CurrentColor,
    Rgba,
    Hsl,
    Other,
}

impl CssColor {
    /// The notation in which the colour was written.
    pub open spec fn form(self) -> ColorForm {
        match self {
            CssColor::CurrentColor => ColorForm::CurrentColor,
            CssColor::Rgba { .. } => ColorForm::Rgba,
            CssColor::Hsl { .. } => ColorForm::Hsl,
            CssColor::Other => ColorForm::Other,
        }
    }
}

/// A parsed colour, in the colour space in which it was written.
#[derive(Clone, Copy, Debug, PartialEq, Eq, Structural)]
pub enum ParsedColor {
    /// sRGB channels and alpha, each as a fraction of full intensity.
    Rgba { red: Scalar, green: Scalar, blue: Scalar, alpha: Scalar },
    /// Hue in degrees, saturation and lightness as fractions, and alpha.
    Hsla { hue: Scalar, saturation: Scalar, lightness: Scalar, alpha: Scalar },
}

/// The fraction of full intensity that `palette` gives for a channel byte.
pub uninterp spec fn channel_fraction(value: u8) -> Scalar;

/// Scales three channel bytes to fractions of full intensity, by
/// `palette::rgb::Rgb::new` and `Rgb::into_format`.
///
/// Trusted: every channel is converted by itself, and the same byte always
/// gives the same fraction.
#[verifier::external_body]
fn channel_fractions(red: u8, green: u8, blue: u8) -> (fractions: (Scalar, Scalar, Scalar))
    ensures
        fractions == (channel_fraction(red), channel_fraction(green), channel_fraction(blue)),
{
    let color: Srgb = Srgb::new(red, green, blue).into_format();
    (color.red.to_bits(), color.green.to_bits(), color.blue.to_bits())
}

/// The component, or zero where it is missing.
pub open spec fn or_zero(component: Option<Scalar>) -> Scalar {
    match component {
        Some(value) => value,
        None => ZERO,
    }
}

/// What becomes of the grammar's verdict on a text: `None` stands for a text
/// that is no colour.
pub open spec fn resolved(parsed: Option<CssColor>) -> Result<ParsedColor, ParsingError<'static>> {
    match parsed {
        None => Err(ParsingError::InvalidSyntax("invalid syntax")),
        Some(CssColor::CurrentColor) => Err(
            ParsingError::UnsupportedValue("currentcolor is not supported in this context"),
        ),
        Some(CssColor::Rgba { red, green, blue, alpha }) => Ok(
            ParsedColor::Rgba {
                red: channel_fraction(red),
                green: channel_fraction(green),
                blue: channel_fraction(blue),
                alpha,
            },
        ),
        Some(CssColor::Hsl { hue, saturation, lightness, alpha }) => Ok(
            ParsedColor::Hsla {
                hue: or_zero(hue),
                saturation: or_zero(saturation),
                lightness: or_zero(lightness),
                alpha: or_zero(alpha),
            },
        ),
        Some(CssColor::Other) => Err(ParsingError::UnsupportedValue("format is not supported")),
    }
}

/// The notation that the CSS colour grammar recognises at the start of a
/// text, or `None` where it recognises no colour.
pub uninterp spec fn css_color_form(text: Seq<char>) -> Option<ColorForm>;

/// The notation of the grammar's verdict.
pub open spec fn form_of(parsed: Option<CssColor>) -> Option<ColorForm> {
    match parsed {
        Some(color) => Some(color.form()),
        None => None,
    }
}

/// Runs `cssparser::Color::parse` on the text and copies what it recognised.
///
/// Trusted: which notation comes back, or that none does, depends on the
/// text alone. Nothing is claimed of the numbers in it.
#[verifier::external_body]
fn tokenize_color(seq: &str) -> (parsed: Option<CssColor>)
    ensures
        form_of(parsed) == css_color_form(seq@),
{
    match Color::parse(&mut Parser::new(&mut ParserInput::new(seq))) {
        Ok(Color::CurrentColor) => Some(CssColor::CurrentColor),
        Ok(Color::Rgba(c)) => Some(
            CssColor::Rgba { red: c.red, green: c.green, blue: c.blue, alpha: c.alpha.to_bits() },
        ),
        Ok(Color::Hsl(c)) => Some(CssColor::Hsl {
            hue: c.hue.map(|x| x.to_bits()),
            saturation: c.saturation.map(|x| x.to_bits()),
            lightness: c.lightness.map(|x| x.to_bits()),
            alpha: c.alpha.map(|x| x.to_bits()),
        }),
        Ok(_) => Some(CssColor::Other),
        Err(_) => None,
    }
}

/// Decides what becomes of a colour that the grammar recognised.
///
/// A text that is no colour is an `InvalidSyntax` error. `currentcolor` has
/// no absolute value and is an `UnsupportedValue` error, as is every
/// notation other than the RGB and HSL ones. An RGB colour has its channels
/// scaled to fractions and keeps its alpha. An HSL colour keeps its
/// components, with zero for each missing one.
pub fn resolve_color(parsed: Option<CssColor>) -> (result: Result<ParsedColor, ParsingError<'static>>)
    ensures
        result == resolved(parsed),
{
    match parsed {
        None => Err(ParsingError::InvalidSyntax("invalid syntax")),
        Some(CssColor::CurrentColor) => Err(
            ParsingError::UnsupportedValue("currentcolor is not supported in this context"),
        ),
        Some(CssColor::Rgba { red, green, blue, alpha }) => {
            let (red, green, blue) = channel_fractions(red, green, blue);
            Ok(ParsedColor::Rgba { red, green, blue, alpha })
        },
        Some(CssColor::Hsl { hue, saturation, lightness, alpha }) => Ok(
            ParsedColor::Hsla {
                hue: unwrap_or_zero(hue),
                saturation: unwrap_or_zero(saturation),
                lightness: unwrap_or_zero(lightness),
                alpha: unwrap_or_zero(alpha),
            },
        ),
        Some(CssColor::Other) => Err(ParsingError::UnsupportedValue("format is not supported")),
    }
}

/// The component, or zero where it is missing.
fn unwrap_or_zero(component: Option<Scalar>) -> (value: Scalar)
    ensures
        value == or_zero(component),
{
    match component {
        Some(value) => value,
        None => ZERO,
    }
}

/// Parses a CSS colour text.
///
/// Which error comes back, or that a colour does, follows from the notation
/// that the grammar recognises in the text. The components of the colour are
/// those that the grammar hands out.
pub fn parse_color(seq: &str) -> (result: Result<ParsedColor, ParsingError<'static>>)
    ensures
        exists|parsed: Option<CssColor>|
            form_of(parsed) == css_color_form(seq@) && result == resolved(parsed),
        css_color_form(seq@) is None <==> result == Err::<ParsedColor, ParsingError>(
            ParsingError::InvalidSyntax("invalid syntax"),
        ),
        css_color_form(seq@) == Some(ColorForm::CurrentColor) <==> result == Err::<
            ParsedColor,
            ParsingError,
        >(ParsingError::UnsupportedValue("currentcolor is not supported in this context")),
        css_color_form(seq@) == Some(ColorForm::Other) <==> result == Err::<
            ParsedColor,
            ParsingError,
        >(ParsingError::UnsupportedValue("format is not supported")),
        css_color_form(seq@) == Some(ColorForm::Rgba) <==> result is Ok && result->Ok_0 is Rgba,
        css_color_form(seq@) == Some(ColorForm::Hsl) <==> result is Ok && result->Ok_0 is Hsla,
{
    let parsed = tokenize_color(seq);
    resolve_color(parsed)
}

} // verus!
