//! Text metrics and overlay rendering. The glyph work — parsing font data,
//! laying out glyphs, rasterizing them onto the canvas — is done by the
//! `rusttype` and `imageproc` crates through a few trusted declarations; the
//! measurement arithmetic, the background-box sizing and the skip-on-empty
//! policy around them are verified.
//!
//! rusttype's layout takes two things for granted that not every parseable
//! font provides: it unwraps both horizontal metrics of every glyph it
//! positions, and it asserts every glyph id the character map produces
//! against the glyph count. The loader here validates both up front with
//! ttf-parser (rusttype's own parsing backend, at the same version), and
//! `FontStyle` keeps its fields private with that loader as the one way in —
//! so every font a caller can hand to the measuring and drawing functions is
//! one the validation passed, and the layout inside the trusted calls cannot
//! abort.

use vstd::prelude::*;

use crate::canvas::fill_rect;
use crate::canvas::Image;
use crate::color::Color;
use crate::error::Error;

verus! {

#[verifier::external_type_specification]
#[verifier::external_body]
pub struct ExFont<'a>(rusttype::Font<'a>);

#[verifier::external_type_specification]
#[verifier::external_body]
pub struct ExScale(rusttype::Scale);

/// Whether a byte sequence is accepted by the validating font load: it
/// parses as a font (`rusttype::Font::try_from_vec`, backed by ttf-parser's
/// `Face::from_slice`), every glyph of the font has both horizontal metrics,
/// and no character-map lookup over the whole code-point range names a glyph
/// beyond the font's glyph count. The result depends on the bytes alone.
pub uninterp spec fn font_accepted(data: Seq<u8>) -> bool;

/// Relies on rusttype::Font::try_from_vec, which returns a font exactly for
/// data that ttf-parser's Face::from_slice accepts, and on ttf-parser's
/// glyph_hor_advance, glyph_hor_side_bearing and cmap subtable lookups to
/// validate, before loading, what rusttype's layout later takes for granted:
/// it unwraps both horizontal metrics of every glyph it positions, and
/// asserts every glyph id the character map produces against the glyph
/// count. The character maps are probed by direct lookup of every code point
/// up to `0x10FFFF` in every subtable — not through the subtables' own
/// enumeration, which skips a format-4 table's terminal segment that lookups
/// still consult. A font that fails any check is rejected here.
#[verifier::external_body]
fn font_from_vec(data: Vec<u8>) -> (r: Option<rusttype::Font<'static>>)
    ensures
        r is Some <==> font_accepted(data@),
{
    let face = match ttf_parser::Face::from_slice(&data, 0) {
        Ok(f) => f,
        Err(_) => return None,
    };
    let (n, mut ok) = (face.number_of_glyphs(), true);
    for i in 0..n {
        let id = ttf_parser::GlyphId(i);
        ok &= face.glyph_hor_advance(id).is_some() && face.glyph_hor_side_bearing(id).is_some();
    }
    for st in face.tables().cmap.iter().flat_map(|c| c.subtables) {
        for cp in 0..=0x10FFFFu32 {
            ok &= st.glyph_index(cp).map_or(true, |g| g.0 < n);
        }
    }
    if ok { rusttype::Font::try_from_vec(data) } else { None }
}

/// The width a line of glyphs spans, from the last glyph's horizontal
/// position and that glyph's own bounding-box width: their sum, clamped to
/// the pixel range.
pub fn glyph_span(x: u32, bw: u32) -> (r: u32)
    ensures
        r == if x + bw <= u32::MAX {
            x + bw
        } else {
            u32::MAX as int
        },
{
    if bw <= u32::MAX - x {
        x + bw
    } else {
        u32::MAX
    }
}

/// The typeface and styling every caption of a run shares: glyph data, scale,
/// foreground and background colors and the origin of the first caption line.
///
/// The fields are private and `FontStyle::new` is the one constructor, so
/// every value of this type carries a font that the validating load accepted.
#[derive(Debug)]
pub struct FontStyle {
    font: rusttype::Font<'static>,
    scale: rusttype::Scale,
    scale_px: u32,
    color: Color,
    pos: (u32, u32),
    background_color: Color,
}

impl FontStyle {
    /// The rendering scale of the glyphs.
    pub closed spec fn spec_scale(&self) -> rusttype::Scale {
        self.scale
    }

    /// The caption line height, in whole pixels.
    pub closed spec fn spec_scale_px(&self) -> u32 {
        self.scale_px
    }

    /// The text foreground color.
    pub closed spec fn spec_color(&self) -> Color {
        self.color
    }

    /// The background-box color.
    pub closed spec fn spec_background(&self) -> Color {
        self.background_color
    }

    /// The origin of the first caption line.
    pub closed spec fn spec_pos(&self) -> (u32, u32) {
        self.pos
    }

    /// Builds the caption style from raw font-file data: white text on a dark
    /// blue box, anchored at the origin. Data that the validating load does
    /// not accept is rejected with a `ConfigError`.
    ///
    /// `scale` is the rendering scale of the glyphs and `scale_px` the whole
    /// number of pixels used as the caption line height.
    pub fn new(data: Vec<u8>, scale: rusttype::Scale, scale_px: u32) -> (r: Result<
        FontStyle,
        Error,
    >)
        ensures
            r is Ok <==> font_accepted(data@),
            r matches Ok(f) ==> f.spec_scale() == scale && f.spec_scale_px() == scale_px
                && f.spec_color() == (Color { red: 255, green: 255, blue: 255 })
                && f.spec_background() == (Color { red: 32, green: 35, blue: 68 }) && f.spec_pos()
                == (0u32, 0u32),
            r matches Err(e) ==> e is ConfigError,
    {
        if let Some(font) = font_from_vec(data) {
            Ok(
                FontStyle {
                    font,
                    scale,
                    scale_px,
                    color: Color { red: 255, green: 255, blue: 255 },
                    pos: (0, 0),
                    background_color: Color { red: 32, green: 35, blue: 68 },
                },
            )
        } else {
            Err(Error::ConfigError(String::from_str("the font data cannot be read as a font")))
        }
    }

    /// Returns the origin of the first caption line.
    pub fn pos(&self) -> (r: (u32, u32))
        ensures
            r == self.spec_pos(),
    {
        self.pos
    }

    /// Returns the caption line height, in whole pixels.
    pub fn scale_px(&self) -> (r: u32)
        ensures
            r == self.spec_scale_px(),
    {
        self.scale_px
    }
}

/// Relies on rusttype's Font::layout, which yields one positioned glyph per
/// character of the text (so there is a last glyph exactly for nonempty
/// text), and on Font::v_metrics for the ascent-aligned layout origin.
/// Returns the last glyph's horizontal position and the width of its pixel
/// bounding box (zero when the glyph has no outline), truncated to whole
/// pixels. Layout unwraps every positioned glyph's horizontal metrics and
/// asserts its id against the glyph count; every `FontStyle` carries a font
/// the validating load accepted, on which both always succeed.
#[verifier::external_body]
fn last_glyph_extent(font: &FontStyle, text: &str) -> (r: Option<(u32, u32)>)
    ensures
        r is Some <==> text@.len() > 0,
{
    let ascent = font.font.v_metrics(font.scale).ascent;
    let offset = rusttype::point(Default::default(), ascent);
    let glyphs: Vec<rusttype::PositionedGlyph> =
        font.font.layout(text, font.scale, offset).collect();
    glyphs.last().map(|g| {
        let x = g.position().x as u32;
        let bw = g.pixel_bounding_box().map(|bb| bb.width() as u32).unwrap_or(0);
        (x, bw)
    })
}

/// Relies on imageproc::drawing::draw_text_mut, which rasterizes the text's
/// glyphs onto the canvas, blending only pixels that lie inside it, and on
/// image::RgbImage::from_raw / into_raw, which wrap and unwrap the raw
/// channel data unchanged. The rasterizer lays the text out as `text_width`
/// does; every `FontStyle` carries a font the validating load accepted, on
/// which that layout always succeeds.
#[verifier::external_body]
fn draw_text_raw(image: &mut Image, x: u32, y: u32, font: &FontStyle, text: &str)
    requires
        old(image).wf(),
    ensures
        final(image).wf(),
        final(image).spec_width() == old(image).spec_width(),
        final(image).spec_height() == old(image).spec_height(),
{
    let data = std::mem::take(&mut image.data);
    let mut buffer = image::RgbImage::from_raw(image.width, image.height, data).unwrap();
    imageproc::drawing::draw_text_mut(
        &mut buffer,
        image::Rgb([font.color.red, font.color.green, font.color.blue]),
        x,
        y,
        font.scale,
        &font.font,
        text,
    );
    image.data = buffer.into_raw();
}

/// Measures the pixel width a text would occupy when rendered left-to-right
/// in the style's font and scale: the last glyph's horizontal position plus
/// that glyph's own bounding-box width, so trailing glyph ink is included.
/// The empty string has no width: `None` signals the caller to skip drawing,
/// and comes exactly then.
pub fn text_width(font: &FontStyle, text: &str) -> (r: Option<u32>)
    ensures
        r is Some <==> text@.len() > 0,
{
    match last_glyph_extent(font, text) {
        Some((x, bw)) => Some(glyph_span(x, bw)),
        None => None,
    }
}

/// Draws one caption line at the given origin: first an opaque background box
/// sized to the measured text width and one line height tall, then the text
/// on top, both anchored at the origin. An empty text draws nothing and the
/// image stays exactly as it was.
pub fn draw_citing(image: &mut Image, font: &FontStyle, pos_x: u32, pos_y: u32, text: &str)
    requires
        old(image).wf(),
    ensures
        final(image).wf(),
        final(image).spec_width() == old(image).spec_width(),
        final(image).spec_height() == old(image).spec_height(),
        text@.len() == 0 ==> *final(image) == *old(image),
{
    if let Some(width) = text_width(font, text) {
        fill_rect(image, pos_x, pos_y, width, font.scale_px, font.background_color);
        draw_text_raw(image, pos_x, pos_y, font, text);
    }
}

} // verus!
