//! Shapes of the external collaborators a layout node queries during
//! measurement: the shared image and font caches, the resource group that
//! bundles them, and the computed-style metadata that drives font
//! resolution. This layer only queries them; their answers are taken as
//! they come, so none of their methods promises anything here.

use vstd::prelude::*;

use crate::content::DimensionsInfo;
use crate::content::GlyphStore;

verus! {

/// Default font size, in points, used when the computed style's font size
/// is unrepresentable.
pub const DEFAULT_FONT_SIZE: u32 = 12;

/// The point size a text measurement shapes at: the computed style's own
/// size, or the default when the style's size is unrepresentable.
pub fn resolve_point_size(size: Option<u32>) -> (r: u32)
    ensures
        r == (match size {
            Some(s) => s,
            None => DEFAULT_FONT_SIZE,
        }),
{
    match size {
        Some(s) => s,
        None => DEFAULT_FONT_SIZE,
    }
}

/// A shared, read-mostly image cache: resolves an image source key into
/// measured dimensions, or nothing when the image is missing or cannot be
/// decoded.
pub trait ImageCache {
    type Dimensions: DimensionsInfo;

    fn measure_image(&self, source: &str) -> Option<Self::Dimensions>;
}

/// A shared, read-mostly font cache: resolves fonts by family name and
/// size and shapes horizontal text runs with a resolved font.
pub trait FontCache {
    type Font;

    type Glyphs: GlyphStore;

    fn get_font_with_size(&self, name: &str, size: u32) -> Option<Self::Font>;

    fn get_default_font_with_size(&self, size: u32) -> Option<Self::Font>;

    fn shape_text_h(&self, font: &Self::Font, text: &str) -> Option<Self::Glyphs>;
}

/// The bundle of shared resource caches handed into measurement
/// operations.
pub trait ResourceGroup {
    type Fonts: FontCache;

    type Images: ImageCache;

    fn fonts(&self) -> &Self::Fonts;

    fn images(&self) -> &Self::Images;
}

/// Computed-style metadata consulted when text is measured: the font size
/// in points when representable, and the font family candidates in
/// priority order.
pub trait ComputedStyles {
    fn font_size(&self) -> Option<u32>;

    fn font_families(&self) -> &Vec<String>;
}

/// A set of style declarations of which some are layout-relevant; applying
/// them to a node is a structural mutation whatever they hold.
pub trait StyleDeclarations {
    fn layout_style_count(&self) -> usize;
}

} // verus!
