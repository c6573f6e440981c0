//! Parsing the pixel font of the game's text.
use vstd::prelude::*;

verus! {

/// A parsed font of the `fontdue` crate.
#[verifier::external_type_specification]
#[verifier::external_body]
pub struct ExFont(fontdue::Font);

/// Whether `fontdue` parses `data` as a font (with its default settings).
pub uninterp spec fn font_parses(data: Seq<u8>) -> bool;

/// Parses `data` with `fontdue::Font::from_bytes` and its default settings.
/// Trusted: a font comes back exactly when the crate parses `data` (named
/// `font_parses`). Nothing is stated of the font itself: its glyph metrics
/// are floating point.
#[verifier::external_body]
fn parse_font(data: &[u8]) -> (r: Option<fontdue::Font>)
    ensures
        r is Some <==> font_parses(data@),
{
    fontdue::Font::from_bytes(data, fontdue::FontSettings::default()).ok()
}

/// Parse the game's font from the bytes of a font file; `None` when they
/// are not a font `fontdue` can parse.
pub fn load_font(data: &[u8]) -> (r: Option<fontdue::Font>)
    ensures
        r is Some <==> font_parses(data@),
{
    parse_font(data)
}

} // verus!
