//! Measured-content caches: one slot for the last measured image dimensions
//! and one for the last shaped text, each with the change-detection policy
//! that decides whether a re-measurement must reach the layout engine.
//!
//! The content types themselves are abstract: any measured-dimensions type
//! exposing width, height and a resource key, and any glyph-store type
//! exposing fixed-point extents, font keys and a glyph sequence, can sit in
//! a slot.

use vstd::prelude::*;

verus! {

/// Capability contract for a measured image: width and height in whole
/// pixels and a key with which the image resource can be fetched again.
pub trait DimensionsInfo: Sized {
    type ResourceKey;

    spec fn spec_width(&self) -> u32;

    spec fn spec_height(&self) -> u32;

    spec fn spec_resource_key(&self) -> Self::ResourceKey;

    fn width(&self) -> (r: u32)
        ensures
            r == self.spec_width(),
    ;

    fn height(&self) -> (r: u32)
        ensures
            r == self.spec_height(),
    ;

    fn resource_key(&self) -> (r: Self::ResourceKey)
        ensures
            r == self.spec_resource_key(),
    ;
}

/// Capability contract for shaped text: extents in fixed-point 1/64-pixel
/// units, the font and font-instance keys the shaping used, and the ordered
/// (possibly empty) sequence of positioned glyphs.
pub trait GlyphStore: Sized {
    type FontKey;

    type FontInstanceKey;

    type Glyph;

    spec fn spec_width_64(&self) -> i32;

    spec fn spec_height_64(&self) -> i32;

    spec fn spec_font_key(&self) -> Self::FontKey;

    spec fn spec_font_instance_key(&self) -> Self::FontInstanceKey;

    spec fn spec_glyphs(&self) -> Seq<Self::Glyph>;

    fn width_64(&self) -> (r: i32)
        ensures
            r == self.spec_width_64(),
    ;

    fn height_64(&self) -> (r: i32)
        ensures
            r == self.spec_height_64(),
    ;

    fn font_key(&self) -> (r: Self::FontKey)
        ensures
            r == self.spec_font_key(),
    ;

    fn font_instance_key(&self) -> (r: Self::FontInstanceKey)
        ensures
            r == self.spec_font_instance_key(),
    ;

    fn glyphs(&self) -> (r: &[Self::Glyph])
        ensures
            r@ == self.spec_glyphs(),
    ;
}

/// Two optional measured images need a relayout iff their presence differs
/// or both are present with a different width or height. Every other field
/// (in particular the resource key) is ignored on purpose.
pub open spec fn image_layout_differs<D: DimensionsInfo>(a: Option<D>, b: Option<D>) -> bool {
    match (a, b) {
        (Some(x), Some(y)) => x.spec_width() != y.spec_width() || x.spec_height()
            != y.spec_height(),
        (None, None) => false,
        _ => true,
    }
}

/// Two optional shaped texts need a relayout iff their presence differs or
/// both are present with a different fixed-point width or height. Fonts,
/// keys and glyph content are ignored on purpose.
pub open spec fn text_layout_differs<G: GlyphStore>(a: Option<G>, b: Option<G>) -> bool {
    match (a, b) {
        (Some(x), Some(y)) => x.spec_width_64() != y.spec_width_64() || x.spec_height_64()
            != y.spec_height_64(),
        (None, None) => false,
        _ => true,
    }
}

/// Cache slot for the last known measured image of a node. Absence means
/// no image is assigned or it has not been measured yet; the value is
/// replaced wholesale on each measurement, never mutated in place.
#[derive(Debug, PartialEq, Copy, Clone)]
pub struct MeasuredImage<D> {
    pub value: Option<D>,
}

impl<D> Default for MeasuredImage<D> {
    fn default() -> (r: Self)
        ensures
            r.value is None,
    {
        MeasuredImage { value: None }
    }
}

impl<D> From<D> for MeasuredImage<D> {
    /// A slot holding a just-measured value.
    fn from(value: D) -> (r: Self) {
        MeasuredImage { value: Some(value) }
    }
}

impl<D> vstd::std_specs::convert::FromSpecImpl<D> for MeasuredImage<D> {
    open spec fn obeys_from_spec() -> bool {
        true
    }

    open spec fn from_spec(value: D) -> Self {
        MeasuredImage { value: Some(value) }
    }
}

impl<D: DimensionsInfo> MeasuredImage<D> {
    /// Overwrites the slot with a freshly measured value and reports whether
    /// the change must trigger a relayout; the slot is the new baseline
    /// either way.
    pub fn should_relayout(&mut self, other: Option<D>) -> (r: bool)
        ensures
            r == image_layout_differs(old(self).value, other),
            final(self).value == other,
    {
        let should_relayout = self.has_different_layout(&other);
        self.value = other;
        should_relayout
    }

    /// Change detection alone: presence or pixel dimensions differ.
    pub fn has_different_layout(&self, other: &Option<D>) -> (r: bool)
        ensures
            r == image_layout_differs(self.value, *other),
    {
        match (&self.value, other) {
            (Some(a), Some(b)) => a.width() != b.width() || a.height() != b.height(),
            (None, None) => false,
            _ => true,
        }
    }

    /// The cached image's resource key, when an image is cached.
    pub fn image_key(&self) -> (r: Option<D::ResourceKey>)
        ensures
            self.value matches Some(d) ==> r matches Some(k) && k == d.spec_resource_key(),
            self.value is None ==> r is None,
    {
        match &self.value {
            Some(d) => Some(d.resource_key()),
            None => None,
        }
    }

    /// The cached image's width in pixels, when an image is cached.
    pub fn width(&self) -> (r: Option<u32>)
        ensures
            self.value matches Some(d) ==> r == Some(d.spec_width()),
            self.value is None ==> r is None,
    {
        match &self.value {
            Some(d) => Some(d.width()),
            None => None,
        }
    }

    /// The cached image's height in pixels, when an image is cached.
    pub fn height(&self) -> (r: Option<u32>)
        ensures
            self.value matches Some(d) ==> r == Some(d.spec_height()),
            self.value is None ==> r is None,
    {
        match &self.value {
            Some(d) => Some(d.height()),
            None => None,
        }
    }
}

/// Cache slot for the last known shaped text of a node, with the same
/// ownership and replacement rules as `MeasuredImage`.
#[derive(Debug, PartialEq, Copy, Clone)]
pub struct ShapedText<G> {
    pub value: Option<G>,
}

impl<G> Default for ShapedText<G> {
    fn default() -> (r: Self)
        ensures
            r.value is None,
    {
        ShapedText { value: None }
    }
}

impl<G> From<G> for ShapedText<G> {
    /// A slot holding a just-shaped value.
    fn from(value: G) -> (r: Self) {
        ShapedText { value: Some(value) }
    }
}

impl<G> vstd::std_specs::convert::FromSpecImpl<G> for ShapedText<G> {
    open spec fn obeys_from_spec() -> bool {
        true
    }

    open spec fn from_spec(value: G) -> Self {
        ShapedText { value: Some(value) }
    }
}

impl<G: GlyphStore> ShapedText<G> {
    /// Overwrites the slot with freshly shaped text and reports whether the
    /// change must trigger a relayout; the slot is the new baseline either
    /// way.
    pub fn should_relayout(&mut self, other: Option<G>) -> (r: bool)
        ensures
            r == text_layout_differs(old(self).value, other),
            final(self).value == other,
    {
        let should_relayout = self.has_different_layout(&other);
        self.value = other;
        should_relayout
    }

    /// Change detection alone: presence or fixed-point extents differ.
    pub fn has_different_layout(&self, other: &Option<G>) -> (r: bool)
        ensures
            r == text_layout_differs(self.value, *other),
    {
        match (&self.value, other) {
            (Some(a), Some(b)) => a.width_64() != b.width_64() || a.height_64() != b.height_64(),
            (None, None) => false,
            _ => true,
        }
    }

    /// The font key the cached shaping used, when text is cached.
    pub fn font_key(&self) -> (r: Option<G::FontKey>)
        ensures
            self.value matches Some(g) ==> r matches Some(k) && k == g.spec_font_key(),
            self.value is None ==> r is None,
    {
        match &self.value {
            Some(g) => Some(g.font_key()),
            None => None,
        }
    }

    /// The font-instance key the cached shaping used, when text is cached.
    pub fn font_instance_key(&self) -> (r: Option<G::FontInstanceKey>)
        ensures
            self.value matches Some(g) ==> r matches Some(k) && k == g.spec_font_instance_key(),
            self.value is None ==> r is None,
    {
        match &self.value {
            Some(g) => Some(g.font_instance_key()),
            None => None,
        }
    }

    /// The cached text's width in 1/64-pixel units, when text is cached.
    pub fn width_64(&self) -> (r: Option<i32>)
        ensures
            self.value matches Some(g) ==> r == Some(g.spec_width_64()),
            self.value is None ==> r is None,
    {
        match &self.value {
            Some(g) => Some(g.width_64()),
            None => None,
        }
    }

    /// The cached text's height in 1/64-pixel units, when text is cached.
    pub fn height_64(&self) -> (r: Option<i32>)
        ensures
            self.value matches Some(g) ==> r == Some(g.spec_height_64()),
            self.value is None ==> r is None,
    {
        match &self.value {
            Some(g) => Some(g.height_64()),
            None => None,
        }
    }

    /// The cached glyph sequence; the empty sequence, not an error, when no
    /// text is cached.
    pub fn glyphs(&self) -> (r: &[G::Glyph])
        ensures
            self.value matches Some(g) ==> r@ == g.spec_glyphs(),
            self.value is None ==> r@ == Seq::<G::Glyph>::empty(),
    {
        match &self.value {
            Some(g) => g.glyphs(),
            None => &[],
        }
    }
}

} // verus!
