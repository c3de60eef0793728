//! The glyph cache: rasterized characters memoized by (font, character,
//! size) and uploaded to the GPU once, on first use.
//!
//! A hit returns the cached record and touches nothing; a miss rasterizes,
//! uploads the bitmap into a fresh texture — or degrades to a blank record
//! with the null texture when rasterization fails — and inserts the record
//! before returning it. The cache never evicts.

use std::collections::HashMap;

use vstd::prelude::*;

use crate::font::{Bitmap, Font, FontError};
use crate::gpu::{Gpu, GpuCommand};

verus! {

broadcast use vstd::std_specs::hash::group_hash_axioms;

/// Lookup key of a cached glyph: the renderer's font identifier, the
/// character, and the requested point size. Equality is exact; there is no
/// fuzzy size matching.
#[derive(Debug, Clone, Copy, PartialEq, Eq, Hash, Structural)]
pub struct GlyphKey {
    pub font: u32,
    pub character: char,
    pub size: u32,
}

impl GlyphKey {
    /// The packed cache code: the font identifier above the size above the
    /// character's code point, each in its own bit range, so distinct keys
    /// always pack to distinct codes.
    pub open spec fn code(&self) -> u128 {
        ((self.font as u128) * 0x1_0000_0000_0000_0000 + (self.size as u128) * 0x1_0000_0000 + (
        self.character as u128)) as u128
    }

    /// Pack the key for the cache.
    pub fn key_code(&self) -> (code: u128)
        ensures
            code == self.code(),
    {
        (self.font as u128) * 0x1_0000_0000_0000_0000 + (self.size as u128) * 0x1_0000_0000 + (
        self.character as u128)
    }
}

/// Distinct keys pack to distinct codes.
pub proof fn lemma_key_code_injective(k1: GlyphKey, k2: GlyphKey)
    requires
        k1.code() == k2.code(),
    ensures
        k1 == k2,
{
    assert((k1.character as u128) < 0x1_0000_0000);
    assert((k2.character as u128) < 0x1_0000_0000);
    assert(k1.font == k2.font && k1.size == k2.size && (k1.character as u128) == (
    k2.character as u128));
}

/// A cached render descriptor: the texture the bitmap was uploaded into
/// (the null handle 0 when rasterization failed), the pixel-space bounding
/// box relative to the glyph origin, and the flag naming the texture
/// format. Copying the record never duplicates GPU memory; the texture is
/// shared by handle.
#[derive(Debug, Clone, Copy, PartialEq, Eq, Structural)]
pub struct Glyph {
    pub texture: u64,
    pub top: i32,
    pub left: i32,
    pub width: i32,
    pub height: i32,
    pub colored: bool,
}

/// Cache of uploaded glyphs, together with the font consulted on a miss.
pub struct GlyphCache {
    cache: HashMap<u128, Glyph>,
    font: Font,
}

impl View for GlyphCache {
    type V = Map<u128, Glyph>;

    closed spec fn view(&self) -> Map<u128, Glyph> {
        self.cache@
    }
}

impl GlyphCache {
    /// The font consulted on a miss.
    pub closed spec fn spec_font(&self) -> Font {
        self.font
    }

    /// Every uploaded texture in the cache was drawn from the GPU's texture
    /// counter, so it lies below the counter, and no two entries share one.
    pub open spec fn wf(&self, next_texture: u64) -> bool {
        &&& forall|code: u128| #[trigger]
            self@.contains_key(code) ==> (self@[code].texture == 0 || self@[code].texture
                < next_texture)
        &&& forall|c1: u128, c2: u128|
            #![trigger self@.contains_key(c1), self@.contains_key(c2)]
            self@.contains_key(c1) && self@.contains_key(c2) && c1 != c2 && self@[c1].texture != 0
                && self@[c2].texture != 0 ==> self@[c1].texture != self@[c2].texture
    }

    /// Create an empty cache around the font.
    pub fn new(font: Font) -> (result: Result<GlyphCache, FontError>)
        ensures
            result matches Ok(cache) && cache@ == Map::<u128, Glyph>::empty()
                && cache.spec_font() == font,
            result matches Ok(cache) ==> forall|next_texture: u64| #[trigger] cache.wf(next_texture),
    {
        Ok(GlyphCache { cache: HashMap::new(), font })
    }

    /// Whether a key already has a cached record.
    pub fn contains(&self, key: GlyphKey) -> (cached: bool)
        ensures
            cached == self@.contains_key(key.code()),
    {
        let code: u128 = key.key_code();
        self.cache.contains_key(&code)
    }

    /// The point size glyphs are cached at.
    pub fn font_size(&self) -> (size: u32)
        ensures
            size == self.spec_font().point_size(),
    {
        self.font.size_in_points()
    }

    /// Upload one rasterized bitmap and build its cache record; the
    /// record's texture is the fresh handle the upload received.
    pub fn load_glyph(&self, bitmap: Bitmap, gpu: &mut Gpu) -> (glyph: Glyph)
        requires
            bitmap.wf(),
            old(gpu).next_texture() < u64::MAX,
        ensures
            glyph.texture == old(gpu).next_texture(),
            glyph.top == bitmap.top,
            glyph.left == bitmap.left,
            glyph.width == bitmap.width,
            glyph.height == bitmap.height,
            glyph.colored == bitmap.colored,
            final(gpu).next_texture() == old(gpu).next_texture() + 1,
            final(gpu).next_shader() == old(gpu).next_shader(),
            final(gpu).next_program() == old(gpu).next_program(),
            final(gpu).next_vao() == old(gpu).next_vao(),
            final(gpu).next_buffer() == old(gpu).next_buffer(),
            final(gpu).next_location() == old(gpu).next_location(),
            final(gpu).log() == old(gpu).log().push(
                GpuCommand::CreateTexture {
                    texture: glyph.texture,
                    width: bitmap.width,
                    height: bitmap.height,
                    colored: bitmap.colored,
                    data: bitmap.data,
                },
            ),
    {
        let Bitmap { width, height, top, left, colored, data } = bitmap;
        let texture: u64 = gpu.create_texture(width, height, colored, data);
        Glyph { texture, top, left, width, height, colored }
    }

    /// Look a key up, rasterizing and uploading on a miss.
    ///
    /// Repeated calls with one key return one record: a hit returns the
    /// cached record and leaves the cache and the GPU exactly as they were,
    /// with no re-upload. A miss inserts the new record — blank, with the
    /// null texture, when rasterization fails — before returning it.
    pub fn get(&mut self, key: GlyphKey, gpu: &mut Gpu) -> (glyph: Glyph)
        requires
            old(self).wf(old(gpu).next_texture()),
            old(self).spec_font().has_regular_key(),
            old(gpu).wf(),
            old(gpu).next_texture() < u64::MAX,
        ensures
            final(gpu).wf(),
            final(self).wf(final(gpu).next_texture()),
            final(self).spec_font().description() == old(self).spec_font().description(),
            final(self).spec_font().point_size() == old(self).spec_font().point_size(),
            final(self).spec_font().spec_raster_size() == old(
                self,
            ).spec_font().spec_raster_size(),
            final(self).spec_font().spec_regular_key() == old(self).spec_font().spec_regular_key(),
            final(self)@.contains_key(key.code()),
            glyph == final(self)@[key.code()],
            old(self)@.contains_key(key.code()) ==> glyph == old(self)@[key.code()]
                && final(self)@ == old(self)@ && *final(gpu) == *old(gpu),
            !old(self)@.contains_key(key.code()) ==> final(self)@ == old(self)@.insert(
                key.code(),
                glyph,
            ),
            final(gpu).next_shader() == old(gpu).next_shader(),
            final(gpu).next_program() == old(gpu).next_program(),
            final(gpu).next_vao() == old(gpu).next_vao(),
            final(gpu).next_buffer() == old(gpu).next_buffer(),
            final(gpu).next_location() == old(gpu).next_location(),
            old(gpu).next_texture() <= final(gpu).next_texture() <= old(gpu).next_texture() + 1,
            !old(self)@.contains_key(key.code()) && glyph.texture != 0 ==> glyph.texture
                == old(gpu).next_texture()
                && final(gpu).next_texture() == old(gpu).next_texture() + 1 && (
            exists|data: Vec<u8>|
                final(gpu).log() == old(gpu).log().push(
                    GpuCommand::CreateTexture {
                        texture: glyph.texture,
                        width: glyph.width,
                        height: glyph.height,
                        colored: glyph.colored,
                        data,
                    },
                )),
            !old(self)@.contains_key(key.code()) && glyph.texture == 0 ==> *final(gpu)
                == *old(gpu) && glyph == (Glyph {
                texture: 0,
                top: 0,
                left: 0,
                width: 0,
                height: 0,
                colored: false,
            }),
    {
        let code: u128 = key.key_code();
        if let Some(cached) = self.cache.get(&code) {
            return *cached;
        }
        let glyph: Glyph = match self.font.get_glyph(key.character) {
            Ok(bitmap) => self.load_glyph(bitmap, gpu),
            Err(_) => Glyph { texture: 0, top: 0, left: 0, width: 0, height: 0, colored: false },
        };
        self.cache.insert(code, glyph);
        proof {
            let m0 = old(self)@;
            let m1 = self@;
            let t1 = gpu.next_texture();
            assert forall|c: u128| #[trigger] m1.contains_key(c) implies (m1[c].texture == 0
                || m1[c].texture < t1) by {
                if c != key.code() {
                    assert(m0.contains_key(c));
                }
            }
            assert forall|c1: u128, c2: u128|
                m1.contains_key(c1) && m1.contains_key(c2) && c1 != c2 && m1[c1].texture != 0
                    && m1[c2].texture != 0 implies m1[c1].texture != m1[c2].texture by {
                if c1 != key.code() && c2 != key.code() {
                    assert(m0.contains_key(c1) && m0.contains_key(c2));
                } else if c1 == key.code() {
                    assert(m0.contains_key(c2));
                } else {
                    assert(m0.contains_key(c1));
                }
            }
        }
        glyph
    }
}

/// Cache key discrimination: entries cached under two keys that differ in
/// character, size or font never share an uploaded texture handle.
pub proof fn lemma_key_discrimination(
    cache: &GlyphCache,
    next_texture: u64,
    k1: GlyphKey,
    k2: GlyphKey,
)
    requires
        cache.wf(next_texture),
        cache@.contains_key(k1.code()),
        cache@.contains_key(k2.code()),
        k1.character != k2.character || k1.size != k2.size || k1.font != k2.font,
        cache@[k1.code()].texture != 0,
        cache@[k2.code()].texture != 0,
    ensures
        cache@[k1.code()].texture != cache@[k2.code()].texture,
{
    if k1.code() == k2.code() {
        lemma_key_code_injective(k1, k2);
    }
}

} // verus!
