//! The font service adapter: descriptions of the font the grid renders
//! with, and the calls into the platform rasterizer behind them.
//!
//! The rasterizer, its font keys, sizes and metrics are opaque values of the
//! `crossfont` crate; the crate's own types carry what the verified logic
//! actually reads, as plain values.

use vstd::prelude::*;

verus! {

/// crossfont's platform rasterizer; opaque here.
#[verifier::external_type_specification]
#[verifier::external_body]
pub struct ExRasterizer(crossfont::Rasterizer);

/// crossfont's identifier of a loaded font face; opaque here.
#[verifier::external_type_specification]
#[verifier::external_body]
pub struct ExFontKey(crossfont::FontKey);

/// crossfont's font size (point size in fixed precision); opaque here.
#[verifier::external_type_specification]
#[verifier::external_body]
pub struct ExSize(crossfont::Size);

/// crossfont's pairing of a family name with a style; opaque here.
#[verifier::external_type_specification]
#[verifier::external_body]
pub struct ExFontDesc(crossfont::FontDesc);

/// crossfont's font-wide metrics; opaque here, read by the host which turns
/// them into the crate's integer [`FontMetrics`].
#[verifier::external_type_specification]
#[verifier::external_body]
pub struct ExMetrics(crossfont::Metrics);

/// crossfont's error; opaque here, mapped to [`FontError`] at the boundary.
#[verifier::external_type_specification]
#[verifier::external_body]
pub struct ExError(crossfont::Error);

/// Description of the normal font.
#[derive(Debug, Default, Clone)]
pub struct FontDescription {
    pub family: String,
    pub style: Option<String>,
}

/// Slant of a font style description.
#[derive(Debug, Clone, Copy, PartialEq, Eq, Structural)]
pub enum Slant {
    Normal,
    Italic,
    Oblique,
}

/// Weight of a font style description.
#[derive(Debug, Clone, Copy, PartialEq, Eq, Structural)]
pub enum Weight {
    Normal,
    Bold,
}

/// The style chosen for a font lookup: either a style named outright, or a
/// slant and weight to search by.
#[derive(Debug, Clone)]
pub enum FontStyle {
    Specific(String),
    Description { slant: Slant, weight: Weight },
}

/// Why a font operation failed; one variant for each failure the
/// rasterizer distinguishes.
#[derive(Debug, Clone)]
pub enum FontError {
    /// No font matched the description, the fallback included.
    NotFound,
    /// The face carries no metrics.
    MetricsNotFound,
    /// The glyph is missing from every font.
    MissingGlyph,
    /// The font key is not known to the rasterizer.
    UnknownKey,
    /// The platform's font system reported an error.
    Platform(String),
}

/// Font-wide metrics in whole device pixels, as the host reads them off the
/// rasterizer: line height and average advance rounded down, and the
/// descent below the baseline.
#[derive(Debug, Clone, Copy, PartialEq, Eq, Structural)]
pub struct FontMetrics {
    pub average_advance: i32,
    pub line_height: i32,
    pub descent: i32,
}

/// A rasterized character: the bounding box placement the glyph cache
/// reads, the `colored` flag choosing the texture format, and the pixels.
#[derive(Debug, Clone)]
pub struct Bitmap {
    pub width: i32,
    pub height: i32,
    pub top: i32,
    pub left: i32,
    /// True for multi-channel (RGBA) bitmaps such as emoji.
    pub colored: bool,
    pub data: Vec<u8>,
}

impl Bitmap {
    /// The pixel buffer covers the bitmap: at least one byte per channel
    /// per pixel — four channels for a colored (RGBA) bitmap, three
    /// otherwise — so uploading it reads no memory beyond the buffer.
    pub open spec fn wf(&self) -> bool {
        self.data@.len() >= self.width * self.height * (if self.colored {
            4int
        } else {
            3int
        })
    }
}

/// Relies on crossfont::Rasterize::new: starts the platform's rasterizer.
#[verifier::external_body]
fn rasterizer_new() -> Result<crossfont::Rasterizer, crossfont::Error> {
    <crossfont::Rasterizer as crossfont::Rasterize>::new()
}

/// Relies on crossfont::FontDesc::new: pairs a family name with a style;
/// the style is copied variant for variant.
#[verifier::external_body]
fn make_font_desc(family: &str, style: &FontStyle) -> crossfont::FontDesc {
    let style = match style {
        FontStyle::Specific(name) => crossfont::Style::Specific(name.clone()),
        FontStyle::Description { slant, weight } => {
            let slant = match slant {
                Slant::Normal => crossfont::Slant::Normal,
                Slant::Italic => crossfont::Slant::Italic,
                Slant::Oblique => crossfont::Slant::Oblique,
            };
            let weight = match weight { Weight::Normal => crossfont::Weight::Normal, Weight::Bold => crossfont::Weight::Bold };
            crossfont::Style::Description { slant, weight }
        },
    };
    crossfont::FontDesc::new(family, style)
}

/// Relies on crossfont::Rasterize::load_font: resolves a description and
/// size to a key for a loaded face.
#[verifier::external_body]
fn load_font_raw(
    rasterizer: &mut crossfont::Rasterizer,
    desc: &crossfont::FontDesc,
    size: crossfont::Size,
) -> Result<crossfont::FontKey, crossfont::Error> {
    crossfont::Rasterize::load_font(rasterizer, desc, size)
}

/// Relies on crossfont::Rasterize::metrics: font-wide metrics of a loaded
/// face.
#[verifier::external_body]
fn metrics_raw(
    rasterizer: &crossfont::Rasterizer,
    key: crossfont::FontKey,
    size: crossfont::Size,
) -> Result<crossfont::Metrics, crossfont::Error> {
    crossfont::Rasterize::metrics(rasterizer, key, size)
}

/// Relies on crossfont::Rasterize::get_glyph: rasterizes one character; the
/// bitmap is copied field for field into the crate's own record, with
/// `colored` telling the RGBA buffer variant from the RGB one. Every path
/// of crossfont's buffer normalization fills at least one byte per channel
/// per pixel of the dimensions it reports, and its downsampling rebuilds
/// exactly four per pixel, so the record's buffer covers the bitmap.
#[verifier::external_body]
fn get_glyph_raw(
    rasterizer: &mut crossfont::Rasterizer,
    character: char,
    font_key: crossfont::FontKey,
    size: crossfont::Size,
) -> (result: Result<Bitmap, crossfont::Error>)
    ensures
        result matches Ok(bitmap) ==> bitmap.wf(),
{
    let key = crossfont::GlyphKey { character, font_key, size };
    let glyph = crossfont::Rasterize::get_glyph(rasterizer, key)?;
    let (colored, data) = match glyph.buffer {
        crossfont::BitmapBuffer::Rgb(buf) => (false, buf),
        crossfont::BitmapBuffer::Rgba(buf) => (true, buf),
    };
    Ok(Bitmap { width: glyph.width, height: glyph.height, top: glyph.top, left: glyph.left, colored, data })
}

/// Relies on crossfont::Error's variants alone: each is mapped to the
/// crate's own error of the same meaning, keeping the platform message.
#[verifier::external_body]
fn classify_font_error(err: crossfont::Error) -> FontError {
    match err {
        crossfont::Error::FontNotFound(_) => FontError::NotFound,
        crossfont::Error::MetricsNotFound => FontError::MetricsNotFound,
        crossfont::Error::MissingGlyph(_) => FontError::MissingGlyph,
        crossfont::Error::UnknownFontKey => FontError::UnknownKey,
        crossfont::Error::PlatformError(message) => FontError::Platform(message),
    }
}

/// The font the renderer draws with: its description and point size as
/// plain values, and the rasterizer it is loaded into.
///
/// The fields stay private so that the key of the regular font can only
/// ever be one that `load_font` returned for this very rasterizer: the
/// rasterizer does not answer for — and may abort on — keys it never
/// issued.
pub struct Font {
    normal: FontDescription,
    size: u32,
    raster_size: crossfont::Size,
    rasterizer: crossfont::Rasterizer,
    regular_key: Option<crossfont::FontKey>,
    used_fallback: bool,
}

impl Font {
    /// Description of the regular font.
    pub closed spec fn description(&self) -> FontDescription {
        self.normal
    }

    /// Requested size in whole points.
    pub closed spec fn point_size(&self) -> u32 {
        self.size
    }

    /// The same point size in the rasterizer's own representation.
    pub closed spec fn spec_raster_size(&self) -> crossfont::Size {
        self.raster_size
    }

    /// The key of the loaded regular font, when one has been resolved.
    pub closed spec fn spec_regular_key(&self) -> Option<crossfont::FontKey> {
        self.regular_key
    }

    /// Whether a regular font has been loaded, so glyphs can be
    /// rasterized.
    pub open spec fn has_regular_key(&self) -> bool {
        self.spec_regular_key() is Some
    }

    /// Whether the latest load resolution had to try the fallback
    /// description because the requested one failed to load.
    pub closed spec fn spec_used_fallback(&self) -> bool {
        self.used_fallback
    }

    /// See [`Self::spec_used_fallback`], for the host and for tests.
    pub fn fallback_was_used(&self) -> (used: bool)
        ensures
            used == self.spec_used_fallback(),
    {
        self.used_fallback
    }

    /// The point size, for the host and for cache keys.
    pub fn size_in_points(&self) -> (size: u32)
        ensures
            size == self.point_size(),
    {
        self.size
    }

    /// The description fallen back to when the requested family fails to
    /// load.
    pub fn fallback_description() -> (desc: FontDescription)
        ensures
            desc.family@ == "Source Han Mono"@,
            desc.style matches Some(style) && style@ == "Regular"@,
    {
        FontDescription {
            family: String::from_str("Source Han Mono"),
            style: Some(String::from_str("Regular")),
        }
    }

    /// Start a rasterizer and describe the regular font of the given family
    /// and size. `raster_size` is the same point size in the rasterizer's
    /// own representation, which the host constructs.
    pub fn new(family: &str, size: u32, raster_size: crossfont::Size) -> (result: Result<
        Font,
        FontError,
    >)
        ensures
            result matches Ok(font) ==> {
                &&& font.description().family@ == family@
                &&& font.description().style matches Some(style) && style@ == "Regular"@
                &&& font.point_size() == size
                &&& font.spec_raster_size() == raster_size
                &&& !font.has_regular_key()
                &&& !font.spec_used_fallback()
            },
    {
        match rasterizer_new() {
            Ok(rasterizer) => Ok(
                Font {
                    normal: FontDescription {
                        family: String::from_str(family),
                        style: Some(String::from_str("Regular")),
                    },
                    size,
                    raster_size,
                    rasterizer,
                    regular_key: None,
                    used_fallback: false,
                },
            ),
            Err(err) => Err(classify_font_error(err)),
        }
    }

    /// Choose the style for a lookup: a style named in the description wins
    /// over the slant and weight.
    pub fn style_choice(desc: &FontDescription, slant: Slant, weight: Weight) -> (style:
        FontStyle)
        ensures
            desc.style matches Some(name) ==> style matches FontStyle::Specific(chosen)
                && chosen@ == name@,
            desc.style is None ==> style == (FontStyle::Description { slant, weight }),
    {
        match &desc.style {
            Some(name) => FontStyle::Specific(name.clone()),
            None => FontStyle::Description { slant, weight },
        }
    }

    /// Build the rasterizer's description of a font from the crate's own.
    pub fn make_desc(desc: &FontDescription, slant: Slant, weight: Weight) -> crossfont::FontDesc {
        let style = Self::style_choice(desc, slant, weight);
        make_font_desc(desc.family.as_str(), &style)
    }

    /// Route the outcome of one load attempt: a delivered key is stored
    /// as the regular font's key and returned; a failure stores nothing
    /// and reports the failure, mapped to the crate's own error.
    fn apply_load_attempt(
        &mut self,
        attempt: Result<crossfont::FontKey, crossfont::Error>,
    ) -> (result: Result<crossfont::FontKey, FontError>)
        ensures
            final(self).description() == old(self).description(),
            final(self).point_size() == old(self).point_size(),
            final(self).spec_raster_size() == old(self).spec_raster_size(),
            final(self).spec_used_fallback() == old(self).spec_used_fallback(),
            attempt matches Ok(key) ==> result matches Ok(stored) && stored == key
                && final(self).spec_regular_key() == Some(key),
            attempt is Err ==> result is Err
                && final(self).spec_regular_key() == old(self).spec_regular_key(),
    {
        match attempt {
            Ok(key) => {
                self.regular_key = Some(key);
                Ok(key)
            },
            Err(err) => Err(classify_font_error(err)),
        }
    }

    /// Load the regular font, retrying with the fallback description when
    /// the requested one cannot be loaded; the error of the fallback
    /// attempt is the one reported. Whether the fallback had to be tried
    /// is observable as [`Self::spec_used_fallback`]: a resolution that
    /// never needed it always delivers a key, and every reported failure
    /// is the fallback attempt's.
    pub fn load_regular_font(&mut self, description: &crossfont::FontDesc) -> (result: Result<
        crossfont::FontKey,
        FontError,
    >)
        ensures
            final(self).description() == old(self).description(),
            final(self).point_size() == old(self).point_size(),
            final(self).spec_raster_size() == old(self).spec_raster_size(),
            result matches Ok(key) ==> final(self).spec_regular_key() == Some(key),
            result is Err ==> final(self).spec_regular_key() == old(self).spec_regular_key(),
            !final(self).spec_used_fallback() ==> result is Ok,
            result is Err ==> final(self).spec_used_fallback(),
    {
        let first = load_font_raw(&mut self.rasterizer, description, self.raster_size);
        self.used_fallback = first.is_err();
        match self.apply_load_attempt(first) {
            Ok(key) => Ok(key),
            Err(_) => {
                let fallback = Self::make_desc(
                    &Self::fallback_description(),
                    Slant::Normal,
                    Weight::Normal,
                );
                let second = load_font_raw(&mut self.rasterizer, &fallback, self.raster_size);
                self.apply_load_attempt(second)
            },
        }
    }

    /// Resolve the key of the regular font, with the fallback retry of
    /// [`Self::load_regular_font`].
    pub fn compute_font_keys(&mut self) -> (result: Result<crossfont::FontKey, FontError>)
        ensures
            final(self).description() == old(self).description(),
            final(self).point_size() == old(self).point_size(),
            final(self).spec_raster_size() == old(self).spec_raster_size(),
            result matches Ok(key) ==> final(self).spec_regular_key() == Some(key),
            result is Err ==> final(self).spec_regular_key() == old(self).spec_regular_key(),
            !final(self).spec_used_fallback() ==> result is Ok,
            result is Err ==> final(self).spec_used_fallback(),
    {
        let regular_desc = Self::make_desc(&self.normal, Slant::Normal, Weight::Normal);
        self.load_regular_font(&regular_desc)
    }

    /// Font-wide metrics of the regular font, reloading it first; the value
    /// is the rasterizer's own, which the host reads into [`FontMetrics`].
    pub fn metrics(&mut self) -> (result: Result<crossfont::Metrics, FontError>)
        ensures
            final(self).description() == old(self).description(),
            final(self).point_size() == old(self).point_size(),
            final(self).spec_raster_size() == old(self).spec_raster_size(),
            old(self).has_regular_key() ==> final(self).has_regular_key(),
            result is Ok ==> final(self).has_regular_key(),
    {
        let regular_desc = Self::make_desc(&self.normal, Slant::Normal, Weight::Normal);
        let regular = match self.load_regular_font(&regular_desc) {
            Ok(key) => key,
            Err(err) => {
                return Err(err);
            },
        };
        match metrics_raw(&self.rasterizer, regular, self.raster_size) {
            Ok(metrics) => Ok(metrics),
            Err(err) => Err(classify_font_error(err)),
        }
    }

    /// Rasterize one character of the loaded regular font at this font's
    /// size; a font must have been loaded first, since the rasterizer only
    /// answers for keys it issued.
    pub fn get_glyph(&mut self, character: char) -> (result: Result<Bitmap, FontError>)
        requires
            old(self).has_regular_key(),
        ensures
            final(self).description() == old(self).description(),
            final(self).point_size() == old(self).point_size(),
            final(self).spec_raster_size() == old(self).spec_raster_size(),
            final(self).spec_regular_key() == old(self).spec_regular_key(),
            result matches Ok(bitmap) ==> bitmap.wf(),
    {
        let font_key: crossfont::FontKey = match self.regular_key {
            Some(key) => key,
            None => vstd::pervasive::unreached(),
        };
        match get_glyph_raw(&mut self.rasterizer, character, font_key, self.raster_size) {
            Ok(bitmap) => Ok(bitmap),
            Err(err) => Err(classify_font_error(err)),
        }
    }
}

} // verus!
