//! Dominant-color palettes: image pixels are decoded and admitted, the
//! quantizer's flat output is split into colors, and each color is rendered
//! in hex, CMYK, RGB or HSL notation.

pub mod color;
pub mod notation;
pub mod pixels;

pub use color::{colors_from_samples, RgbColor};
pub use notation::{format_color, format_palette, notation_from_name, parse_notation, render_palette, Notation};
pub use pixels::{admit_image, load_pixels, AlphaMode, DecodedImage, PaletteError, PixelBuffer};
