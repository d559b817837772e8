//! Font data that is known to parse.

use ab_glyph::Font;
use vstd::prelude::*;

verus! {

/// A parsed font of the font library, with the data it was parsed from.
#[verifier::external_type_specification]
#[verifier::external_body]
pub struct ExFontVec(ab_glyph::FontVec);

/// The font library's error for data that is no font.
#[verifier::external_type_specification]
#[verifier::external_body]
pub struct ExInvalidFont(ab_glyph::InvalidFont);

/// Whether the bytes are font data that the font parser accepts.
pub uninterp spec fn font_parses(data: Seq<u8>) -> bool;

/// The data that a parsed font holds.
pub uninterp spec fn font_contents(font: ab_glyph::FontVec) -> Seq<u8>;

/// The glyph id that the font held in `data` gives to `ch`.
pub uninterp spec fn glyph_id_of(data: Seq<u8>, ch: char) -> u16;

/// Whether the font held in `data` has an outline for the glyph `id`.
pub uninterp spec fn glyph_outlined(data: Seq<u8>, id: u16) -> bool;

/// Whether the font held in `data` maps `ch` to a glyph of its own. A
/// character that the font does not know gets the id 0, the one of the
/// glyph that stands for a missing character.
pub open spec fn mapped(data: Seq<u8>, ch: char) -> bool {
    glyph_id_of(data, ch) != 0
}

/// Whether the font held in `data` can draw `ch`: it maps the character
/// to a glyph of its own, and that glyph has an outline.
pub open spec fn renderable(data: Seq<u8>, ch: char) -> bool {
    mapped(data, ch) && glyph_outlined(data, glyph_id_of(data, ch))
}

/// Calls `ab_glyph::FontVec::try_from_vec`. The contract names the
/// outcome, which depends on the bytes alone, and says that a font that
/// comes back holds the bytes it was given.
#[verifier::external_body]
fn parse_font(data: Vec<u8>) -> (r: Result<ab_glyph::FontVec, ab_glyph::InvalidFont>)
    ensures
        r is Ok <==> font_parses(data@),
        r matches Ok(font) ==> font_contents(font) == data@,
{
    ab_glyph::FontVec::try_from_vec(data)
}

/// Calls `ab_glyph::FontVec::as_slice`, which hands out the data that the
/// font was parsed from.
#[verifier::external_body]
fn font_slice(font: &ab_glyph::FontVec) -> (data: &[u8])
    ensures
        data@ == font_contents(*font),
{
    font.as_slice()
}

/// Calls `ab_glyph::Font::glyph_id`. The contract only names the id that
/// comes back, which depends on the font's data and the character.
#[verifier::external_body]
fn glyph_id(font: &ab_glyph::FontVec, ch: char) -> (id: u16)
    ensures
        id == glyph_id_of(font_contents(*font), ch),
{
    font.glyph_id(ch).0
}

/// Calls `ab_glyph::Font::outline` and reports whether it returned an
/// outline. The contract only names that outcome, which depends on the
/// font's data and the glyph id.
#[verifier::external_body]
fn has_outline(font: &ab_glyph::FontVec, id: u16) -> (yes: bool)
    ensures
        yes == glyph_outlined(font_contents(*font), id),
{
    font.outline(ab_glyph::GlyphId(id)).is_some()
}

/// Why an atlas could not be made.
#[derive(Clone, Copy, Debug, PartialEq, Eq, Structural)]
pub enum AtlasError {
    /// The font data does not parse.
    InvalidFont,
    /// The texture for this many tiles of this size would not fit in
    /// 32 bits.
    TooLarge,
}

/// A font that parsed.
pub struct FontData {
    font: ab_glyph::FontVec,
}

impl View for FontData {
    type V = Seq<u8>;

    /// The data of the font.
    closed spec fn view(&self) -> Seq<u8> {
        font_contents(self.font)
    }
}

impl FontData {
    #[verifier::type_invariant]
    spec fn parses(self) -> bool {
        font_parses(font_contents(self.font))
    }

    /// Parses the bytes; fails when they are no font.
    pub fn parse(bytes: Vec<u8>) -> (r: Result<FontData, AtlasError>)
        ensures
            r is Ok <==> font_parses(bytes@),
            r matches Ok(font) ==> font@ == bytes@,
            r matches Err(e) ==> e == AtlasError::InvalidFont,
    {
        match parse_font(bytes) {
            Ok(font) => Ok(FontData { font }),
            Err(_) => Err(AtlasError::InvalidFont),
        }
    }

    /// The data of the font, which parses.
    pub fn bytes(&self) -> (b: &[u8])
        ensures
            b@ == self@,
            font_parses(self@),
    {
        proof {
            use_type_invariant(self);
        }
        font_slice(&self.font)
    }

    /// Whether the font maps `ch` to a glyph of its own.
    pub fn maps(&self, ch: char) -> (yes: bool)
        ensures
            yes == mapped(self@, ch),
    {
        glyph_id(&self.font, ch) != 0
    }

    /// Whether the font can draw `ch`.
    pub fn renders(&self, ch: char) -> (yes: bool)
        ensures
            yes == renderable(self@, ch),
    {
        let id = glyph_id(&self.font, ch);
        id != 0 && has_outline(&self.font, id)
    }
}

} // verus!
