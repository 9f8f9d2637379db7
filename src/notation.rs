use vstd::prelude::*;
use vstd::string::StringExecFns;
use crate::color::{colors_of, colors_from_samples, rgb_text, RgbColor};

verus! {

/// The textual color notations a palette can be rendered in.
#[derive(Debug, Clone, Copy, PartialEq, Eq, Structural)]
pub enum Notation {
    Hex,
    Cmyk,
    Rgb,
    Hsl,
}

/// `color_convert::color::Error`, the conversion error of `color_convert`.
#[verifier::external_type_specification]
#[verifier::external_body]
pub struct ExConvertError(color_convert::color::Error);

/// Holds when `s` is the `rgb(R,G,B)` text of some 8-bit triple.
pub open spec fn is_rgb_text(s: Seq<char>) -> bool {
    exists|r: u8, g: u8, b: u8| #[trigger] rgb_text(r, g, b) == s
}

/// What `color_convert` renders an `rgb(...)` text as in CMYK notation.
pub uninterp spec fn cmyk_of(text: Seq<char>) -> Seq<char>;

/// What `color_convert` renders an `rgb(...)` text as in HSL notation.
pub uninterp spec fn hsl_of(text: Seq<char>) -> Seq<char>;

/// What `str::to_lowercase` makes of a string.
pub uninterp spec fn lower_of(s: Seq<char>) -> Seq<char>;

/// Relies on `color_convert::color::Color::new` and `Color::to_cmyk`: an
/// `rgb(R,G,B)` text always gives `Ok`, and black gives `cmyk(0,0,0,1)`.
#[verifier::external_body]
fn convert_to_cmyk(text: &str) -> (r: Result<String, color_convert::color::Error>)
    requires
        is_rgb_text(text@),
    ensures
        r is Ok,
        r is Ok ==> r->Ok_0@ == cmyk_of(text@),
        r is Ok && text@ == rgb_text(0, 0, 0) ==> r->Ok_0@ == cmyk_black(),
{
    color_convert::color::Color::new(text).to_cmyk()
}

/// Relies on `color_convert::color::Color::new` and `Color::to_hsl`: an
/// `rgb(R,G,B)` text always gives `Ok`; for a gray (equal channels) hue and
/// saturation are both written `0`.
#[verifier::external_body]
fn convert_to_hsl(text: &str) -> (r: Result<String, color_convert::color::Error>)
    requires
        is_rgb_text(text@),
    ensures
        r is Ok,
        r is Ok ==> r->Ok_0@ == hsl_of(text@),
        r is Ok ==> forall|v: u8| text@ == #[trigger] rgb_text(v, v, v) ==> r->Ok_0@.take(8) == hsl_gray_prefix(),
{
    color_convert::color::Color::new(text).to_hsl()
}

/// Relies on `str::to_lowercase`: the result depends on the characters alone.
#[verifier::external_body]
fn lowercase(s: &str) -> (r: String)
    ensures
        r@ == lower_of(s@),
{
    s.to_lowercase()
}

/// The notation a lower-case selector names; anything unrecognised means hex.
pub open spec fn notation_named(name: Seq<char>) -> Notation {
    if name == seq!['c', 'm', 'y', 'k'] {
        Notation::Cmyk
    } else if name == seq!['r', 'g', 'b'] {
        Notation::Rgb
    } else if name == seq!['h', 's', 'l'] {
        Notation::Hsl
    } else {
        Notation::Hex
    }
}

/// The notation an optional selector asks for: hex when there is none, else
/// the notation its lower-case form names.
pub open spec fn notation_selected(selector: Option<Seq<char>>) -> Notation {
    match selector {
        None => Notation::Hex,
        Some(s) => notation_named(lower_of(s)),
    }
}

/// How the HSL rendering of a gray begins: hue and saturation zero.
pub open spec fn hsl_gray_prefix() -> Seq<char> {
    seq!['h', 's', 'l', '(', '0', ',', '0', ',']
}

/// The CMYK rendering of black.
pub open spec fn cmyk_black() -> Seq<char> {
    seq!['c', 'm', 'y', 'k', '(', '0', ',', '0', ',', '0', ',', '1', ')']
}

/// A color's rendering in a notation.
pub open spec fn formatted(c: RgbColor, notation: Notation) -> Seq<char> {
    match notation {
        Notation::Hex => c.hex(),
        Notation::Cmyk => cmyk_of(c.text()),
        Notation::Rgb => c.text(),
        Notation::Hsl => hsl_of(c.text()),
    }
}

/// Reads an already lower-cased notation name; unrecognised names mean hex.
pub fn notation_from_name(name: &str) -> (n: Notation)
    ensures
        n == notation_named(name@),
{
    proof {
        reveal_strlit("cmyk");
        reveal_strlit("rgb");
        reveal_strlit("hsl");
        assert("cmyk"@ =~= seq!['c', 'm', 'y', 'k']);
        assert("rgb"@ =~= seq!['r', 'g', 'b']);
        assert("hsl"@ =~= seq!['h', 's', 'l']);
    }
    let owned = name.to_owned();
    if owned == String::from_str("cmyk") {
        Notation::Cmyk
    } else if owned == String::from_str("rgb") {
        Notation::Rgb
    } else if owned == String::from_str("hsl") {
        Notation::Hsl
    } else {
        Notation::Hex
    }
}

/// Reads an optional notation selector, ignoring case; hex is the default.
pub fn parse_notation(selector: Option<String>) -> (n: Notation)
    ensures
        n == notation_selected(match selector {
            None => None,
            Some(s) => Some(s@),
        }),
{
    match selector {
        None => Notation::Hex,
        Some(s) => {
            let lower = lowercase(s.as_str());
            notation_from_name(lower.as_str())
        },
    }
}

/// Renders one color in the given notation.
pub fn format_color(c: &RgbColor, notation: Notation) -> (s: String)
    ensures
        s@ == formatted(*c, notation),
        notation == Notation::Cmyk && c.r == 0 && c.g == 0 && c.b == 0 ==> s@ == cmyk_black(),
        notation == Notation::Hsl && c.r == c.g && c.g == c.b ==> s@.take(8) == hsl_gray_prefix(),
{
    let text = c.to_string();
    assert(rgb_text(c.r, c.g, c.b) == text@);
    match notation {
        Notation::Hex => c.to_hex(),
        Notation::Cmyk => convert_to_cmyk(text.as_str()).unwrap(),
        Notation::Rgb => text,
        Notation::Hsl => convert_to_hsl(text.as_str()).unwrap(),
    }
}

/// Renders every color held in a flat sample sequence (see
/// `colors_from_samples`) in the given notation, in order.
pub fn format_palette(samples: &[u8], has_alpha: bool, notation: Notation) -> (out: Vec<String>)
    ensures
        out@.len() == colors_of(samples@, has_alpha).len(),
        forall|i: int| 0 <= i < out@.len()
            ==> #[trigger] out@[i]@ == formatted(colors_of(samples@, has_alpha)[i], notation),
{
    let colors = colors_from_samples(samples, has_alpha);
    let mut out: Vec<String> = Vec::new();
    let mut i: usize = 0;
    while i < colors.len()
        invariant
            colors@ == colors_of(samples@, has_alpha),
            i <= colors@.len(),
            out@.len() == i,
            forall|j: int| 0 <= j < i ==> #[trigger] out@[j]@ == formatted(colors@[j], notation),
        decreases colors@.len() - i,
    {
        let s = format_color(&colors[i], notation);
        out.push(s);
        i = i + 1;
    }
    out
}

/// Renders the colors of a quantizer's flat output in the notation that an
/// optional selector asks for (hex by default, case ignored), in order.
pub fn render_palette(quantized: &[u8], has_alpha: bool, selector: Option<String>) -> (out: Vec<String>)
    ensures
        out@.len() == colors_of(quantized@, has_alpha).len(),
        forall|i: int| 0 <= i < out@.len() ==> #[trigger] out@[i]@ == formatted(
            colors_of(quantized@, has_alpha)[i],
            notation_selected(match selector {
                None => None,
                Some(s) => Some(s@),
            }),
        ),
{
    let notation = parse_notation(selector);
    format_palette(quantized, has_alpha, notation)
}

/// A selector that names no known notation, once lower-cased, renders every
/// color exactly as hex does.
pub proof fn lemma_unknown_selector_is_hex(selector: Seq<char>, c: RgbColor)
    requires
        lower_of(selector) != seq!['c', 'm', 'y', 'k'],
        lower_of(selector) != seq!['r', 'g', 'b'],
        lower_of(selector) != seq!['h', 's', 'l'],
    ensures
        notation_selected(Some(selector)) == notation_selected(None),
        formatted(c, notation_selected(Some(selector))) == formatted(c, Notation::Hex),
{
}

/// An empty quantizer output gives an empty palette.
pub proof fn lemma_empty_palette(has_alpha: bool)
    ensures
        colors_of(Seq::<u8>::empty(), has_alpha).len() == 0,
{
}

} // verus!
