//! Minimal concrete collaborators satisfying the capability contracts:
//! plain measured-dimensions and glyph-store values, and constant-answer
//! resource caches. Any richer resource implementation with the same
//! method set drops in without changing the core; these exist so the core
//! can be driven and exercised with nothing but plain values.

use vstd::prelude::*;

use crate::content::DimensionsInfo;
use crate::content::GlyphStore;
use crate::resources::ComputedStyles;
use crate::resources::FontCache;
use crate::resources::ImageCache;
use crate::resources::ResourceGroup;
use crate::resources::StyleDeclarations;

verus! {

/// Measured image dimensions as plain values: pixel extents plus the key
/// under which the image resource can be fetched again.
#[derive(Debug, PartialEq, Eq, Structural, Copy, Clone)]
pub struct ImageDimensions {
    pub width: u32,
    pub height: u32,
    pub key: u64,
}

impl DimensionsInfo for ImageDimensions {
    type ResourceKey = u64;

    open spec fn spec_width(&self) -> u32 {
        self.width
    }

    open spec fn spec_height(&self) -> u32 {
        self.height
    }

    open spec fn spec_resource_key(&self) -> u64 {
        self.key
    }

    fn width(&self) -> (r: u32) {
        self.width
    }

    fn height(&self) -> (r: u32) {
        self.height
    }

    fn resource_key(&self) -> (r: u64) {
        self.key
    }
}

/// A shaped text run as plain values: fixed-point extents, the font and
/// font-instance keys the shaping used, and the glyph identifiers in
/// order.
#[derive(Debug, PartialEq, Eq, Clone)]
pub struct ShapedRun {
    pub width_64: i32,
    pub height_64: i32,
    pub font_key: u64,
    pub font_instance_key: u64,
    pub glyphs: Vec<u32>,
}

impl GlyphStore for ShapedRun {
    type FontKey = u64;

    type FontInstanceKey = u64;

    type Glyph = u32;

    open spec fn spec_width_64(&self) -> i32 {
        self.width_64
    }

    open spec fn spec_height_64(&self) -> i32 {
        self.height_64
    }

    open spec fn spec_font_key(&self) -> u64 {
        self.font_key
    }

    open spec fn spec_font_instance_key(&self) -> u64 {
        self.font_instance_key
    }

    open spec fn spec_glyphs(&self) -> Seq<u32> {
        self.glyphs@
    }

    fn width_64(&self) -> (r: i32) {
        self.width_64
    }

    fn height_64(&self) -> (r: i32) {
        self.height_64
    }

    fn font_key(&self) -> (r: u64) {
        self.font_key
    }

    fn font_instance_key(&self) -> (r: u64) {
        self.font_instance_key
    }

    fn glyphs(&self) -> (r: &[u32]) {
        self.glyphs.as_slice()
    }
}

/// A font handle of the constant caches: nothing but the size it was
/// requested at.
#[derive(Debug, PartialEq, Eq, Structural, Copy, Clone)]
pub struct SizedFont {
    pub size: u32,
}

/// An image cache that answers every lookup with one fixed result.
#[derive(Debug, Clone)]
pub struct ConstImageSource {
    pub dimensions: Option<ImageDimensions>,
}

impl ImageCache for ConstImageSource {
    type Dimensions = ImageDimensions;

    fn measure_image(&self, _source: &str) -> Option<ImageDimensions> {
        self.dimensions
    }
}

/// A font cache with one optional named font, one optional default font,
/// and one fixed shaping answer.
#[derive(Debug, Clone)]
pub struct ConstFontSource {
    pub has_named_font: bool,
    pub has_default_font: bool,
    pub shaped: Option<ShapedRun>,
}

impl FontCache for ConstFontSource {
    type Font = SizedFont;

    type Glyphs = ShapedRun;

    fn get_font_with_size(&self, _name: &str, size: u32) -> Option<SizedFont> {
        if self.has_named_font {
            Some(SizedFont { size })
        } else {
            None
        }
    }

    fn get_default_font_with_size(&self, size: u32) -> Option<SizedFont> {
        if self.has_default_font {
            Some(SizedFont { size })
        } else {
            None
        }
    }

    fn shape_text_h(&self, _font: &SizedFont, _text: &str) -> Option<ShapedRun> {
        self.shaped.clone()
    }
}

/// The constant caches bundled as a resource group.
#[derive(Debug, Clone)]
pub struct ConstResources {
    pub fonts: ConstFontSource,
    pub images: ConstImageSource,
}

impl ResourceGroup for ConstResources {
    type Fonts = ConstFontSource;

    type Images = ConstImageSource;

    fn fonts(&self) -> &ConstFontSource {
        &self.fonts
    }

    fn images(&self) -> &ConstImageSource {
        &self.images
    }
}

/// Computed-style metadata as plain values.
#[derive(Debug, Clone)]
pub struct PlainComputedStyles {
    pub font_size: Option<u32>,
    pub families: Vec<String>,
}

impl ComputedStyles for PlainComputedStyles {
    fn font_size(&self) -> Option<u32> {
        self.font_size
    }

    fn font_families(&self) -> &Vec<String> {
        &self.families
    }
}

/// A style set described only by how many of its declarations are
/// layout-relevant.
#[derive(Debug, Clone)]
pub struct PlainStyleSet {
    pub layout_count: usize,
}

impl StyleDeclarations for PlainStyleSet {
    fn layout_style_count(&self) -> usize {
        self.layout_count
    }
}

} // verus!
