//! CSS colour parsing and WCAG 2.0 contrast, verified with Verus.
//!
//! `parser` turns a CSS colour text into a colour or a typed error, on top of
//! the grammar of `cssparser`. `contrast` computes relative luminance and
//! contrast ratios and picks the candidate with the best contrast.
//! `css_types` splits and joins CSS percentage texts.
//!
//! Luminance and contrast are computed in exact integer arithmetic: a
//! linear-light intensity is a multiple of `1 / UNIT`, a luminance a multiple
//! of `1 / LUMINANCE_ONE`, and a contrast ratio a fraction of two such
//! luminances, so every comparison of two ratios is decided without rounding.
//! Where a colour has real-valued components, each is held as the bit
//! pattern of a single-precision number.

pub mod color;
pub mod contrast;
pub mod css_types;
pub mod error;
pub mod gamma;
pub mod parser;

pub use color::RGB;
pub use contrast::{get_best_contrast, relative_luminance, wcag_contrast_ratio, ContrastRatio};
pub use css_types::{is_percentage, percentage_number, with_percent_sign};
pub use error::ParsingError;
pub use gamma::transform_color_value;
pub use parser::{parse_color, resolve_color, ColorForm, CssColor, ParsedColor, Scalar, ZERO};
