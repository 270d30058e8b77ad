//! The layout node: wraps one node of the external flexbox engine's tree
//! and keeps this layer's record of everything it has told the engine —
//! attachment, child count, the installed measurement context and
//! aspect-ratio style — together with the tainted flag, the two
//! measured-content cache slots, the ancestor offset assigned by the
//! node's layout parent, and the engine's last solved local rectangle.
//!
//! The engine itself runs outside this layer: an engine-facing shell
//! forwards each structural mutation to its engine node and hands the
//! solved per-node geometry back through `record_solved_layout`.

use vstd::prelude::*;

use crate::content::image_layout_differs;
use crate::content::text_layout_differs;
use crate::content::DimensionsInfo;
use crate::content::GlyphStore;
use crate::content::MeasuredImage;
use crate::content::ShapedText;
use crate::geometry::LayoutBoundingClientRect;
use crate::geometry::LayoutClientPosition;
use crate::geometry::LayoutClientSize;
use crate::measure::ImageNodeContext;
use crate::measure::NodeMeasureContext;
use crate::measure::TextNodeContext;
use crate::resources::ComputedStyles;
use crate::resources::FontCache;
use crate::resources::ImageCache;
use crate::resources::ResourceGroup;
use crate::resources::resolve_point_size;
use crate::resources::StyleDeclarations;

verus! {

/// Text or layout direction handed to the engine when a subtree is solved.
#[derive(Debug, PartialEq, Eq, Structural, Copy, Clone)]
pub enum LayoutReflowDirection {
    Inherit,
    LeftToRight,
    RightToLeft,
}

/// What one image measurement does to a node's measurement state: the
/// cache is always overwritten with the freshly resolved value, and iff
/// the resolved dimensions differ from the cached ones, the node becomes
/// tainted, an image context with the new dimensions (zero when absent) is
/// installed, and an aspect-ratio style of width over height (one over one
/// when absent) is applied. The result is the new
/// (tainted, cache, context, aspect-ratio) state.
pub open spec fn image_measure_transition<D: DimensionsInfo>(
    tainted: bool,
    cache: Option<D>,
    context: Option<NodeMeasureContext>,
    aspect_ratio: Option<(u32, u32)>,
    resolved: Option<D>,
) -> (bool, Option<D>, Option<NodeMeasureContext>, Option<(u32, u32)>) {
    if image_layout_differs(cache, resolved) {
        (
            true,
            resolved,
            Some(
                NodeMeasureContext::Image(
                    ImageNodeContext {
                        width: match resolved {
                            Some(d) => d.spec_width(),
                            None => 0,
                        },
                        height: match resolved {
                            Some(d) => d.spec_height(),
                            None => 0,
                        },
                    },
                ),
            ),
            match resolved {
                Some(d) => Some((d.spec_width(), d.spec_height())),
                None => Some((1u32, 1u32)),
            },
        )
    } else {
        (tainted, resolved, context, aspect_ratio)
    }
}

/// What one text measurement does to a node's measurement state: the cache
/// is always overwritten with the freshly shaped value, and iff the
/// resolved fixed-point extents differ from the cached ones, the node
/// becomes tainted and a text context with the new extents (zero when
/// absent) is installed. The result is the new (tainted, cache, context)
/// state.
pub open spec fn text_measure_transition<G: GlyphStore>(
    tainted: bool,
    cache: Option<G>,
    context: Option<NodeMeasureContext>,
    resolved: Option<G>,
) -> (bool, Option<G>, Option<NodeMeasureContext>) {
    if text_layout_differs(cache, resolved) {
        (
            true,
            resolved,
            Some(
                NodeMeasureContext::Text(
                    TextNodeContext {
                        width_64: match resolved {
                            Some(g) => g.spec_width_64(),
                            None => 0,
                        },
                        height_64: match resolved {
                            Some(g) => g.spec_height_64(),
                            None => 0,
                        },
                    },
                ),
            ),
        )
    } else {
        (tainted, resolved, context)
    }
}

/// One node of the layout tree. Exactly one measurement kind is active at
/// a time: none (structural), image, or text, recorded by `context`.
pub struct LayoutNode<R: ResourceGroup> {
    /// Set by every structural or style mutation and by every content
    /// re-measurement that changed the layout; never cleared by this
    /// layer — consuming it is the caller's reflow scheduling logic's job.
    pub tainted: bool,
    /// Offset from the positioning ancestor, written only by the node's
    /// layout parent when child positions are assigned.
    pub computed_client_position: LayoutClientPosition,
    /// Cache slot for the node's measured image, if it is image content.
    pub measured_image: MeasuredImage<<R::Images as ImageCache>::Dimensions>,
    /// Cache slot for the node's shaped text, if it is text content.
    pub shaped_text: ShapedText<<R::Fonts as FontCache>::Glyphs>,
    /// The measurement context this layer last installed on the engine
    /// node, together with the matching measurement callback; `None` while
    /// the node is purely structural.
    pub context: Option<NodeMeasureContext>,
    /// The aspect-ratio style (width, height) this layer last applied to
    /// the engine node; the engine consumes it as the floating ratio of
    /// the two.
    pub aspect_ratio: Option<(u32, u32)>,
    /// Number of children of the wrapped engine node.
    pub child_count: usize,
    /// Whether this node is currently a child of some engine node.
    pub attached: bool,
    /// Whether this node was explicitly forced dirty in the engine.
    pub dirty: bool,
    /// The engine's solved local rectangle for this node, as last handed
    /// back after a reflow; stale by design until the next reflow.
    pub solved_local: LayoutBoundingClientRect,
}

impl<R: ResourceGroup> LayoutNode<R> {
    /// The fields a measurement operation never touches.
    pub open spec fn structure_unchanged(pre: Self, post: Self) -> bool {
        &&& post.computed_client_position == pre.computed_client_position
        &&& post.child_count == pre.child_count
        &&& post.attached == pre.attached
        &&& post.dirty == pre.dirty
        &&& post.solved_local == pre.solved_local
    }

    /// The fields a structural operation never touches.
    pub open spec fn content_unchanged(pre: Self, post: Self) -> bool {
        &&& post.measured_image == pre.measured_image
        &&& post.shaped_text == pre.shaped_text
        &&& post.context == pre.context
        &&& post.aspect_ratio == pre.aspect_ratio
    }

    /// A fresh node: empty engine node, no measured content, zero offset,
    /// untainted.
    pub fn make_initial_layout_node() -> (r: Self)
        ensures
            !r.tainted,
            r.computed_client_position == (LayoutClientPosition { left: 0, top: 0 }),
            r.measured_image.value is None,
            r.shaped_text.value is None,
            r.context is None,
            r.aspect_ratio is None,
            r.child_count == 0,
            !r.attached,
            !r.dirty,
            r.solved_local == LayoutBoundingClientRect::spec_zero(),
    {
        LayoutNode {
            tainted: false,
            computed_client_position: LayoutClientPosition { left: 0, top: 0 },
            measured_image: MeasuredImage { value: None },
            shaped_text: ShapedText { value: None },
            context: None,
            aspect_ratio: None,
            child_count: 0,
            attached: false,
            dirty: false,
            solved_local: LayoutBoundingClientRect {
                position: LayoutClientPosition { left: 0, top: 0 },
                size: LayoutClientSize { width: 0, height: 0 },
            },
        }
    }

    /// Deliberate no-op, kept as a named operation: clearing the engine
    /// node's custom style state on element recycling proved far too
    /// expensive, so the operation's slot in the contract is preserved
    /// while its behaviour stays empty.
    pub fn reset_custom_styles(&mut self)
        ensures
            *final(self) == *old(self),
    {
    }

    /// Whether some mutation since creation still awaits a reflow.
    pub fn is_tainted(&self) -> (r: bool)
        ensures
            r == self.tainted,
    {
        self.tainted
    }

    /// Inserts `child` under this node at `index` and taints this node.
    /// The bounds mirror what the engine itself enforces: the index may
    /// not pass the current child count, the child may not already be
    /// attached, and a node with an installed measurement callback cannot
    /// take children.
    pub fn insert_child(&mut self, child: &mut Self, index: usize)
        requires
            index <= old(self).child_count,
            old(self).child_count < usize::MAX,
            !old(child).attached,
            old(self).context is None,
        ensures
            final(self).tainted,
            final(self).child_count == old(self).child_count + 1,
            final(self).computed_client_position == old(self).computed_client_position,
            final(self).attached == old(self).attached,
            final(self).dirty == old(self).dirty,
            final(self).solved_local == old(self).solved_local,
            Self::content_unchanged(*old(self), *final(self)),
            final(child).attached,
            final(child).tainted == old(child).tainted,
            final(child).computed_client_position == old(child).computed_client_position,
            final(child).child_count == old(child).child_count,
            final(child).dirty == old(child).dirty,
            final(child).solved_local == old(child).solved_local,
            Self::content_unchanged(*old(child), *final(child)),
    {
        self.child_count = self.child_count + 1;
        child.attached = true;
        self.tainted = true;
    }

    /// Appends `child` after the last current child and taints this node.
    pub fn append_child(&mut self, child: &mut Self)
        requires
            old(self).child_count < usize::MAX,
            !old(child).attached,
            old(self).context is None,
        ensures
            final(self).tainted,
            final(self).child_count == old(self).child_count + 1,
            final(self).computed_client_position == old(self).computed_client_position,
            final(self).attached == old(self).attached,
            final(self).dirty == old(self).dirty,
            final(self).solved_local == old(self).solved_local,
            Self::content_unchanged(*old(self), *final(self)),
            final(child).attached,
            final(child).tainted == old(child).tainted,
            final(child).computed_client_position == old(child).computed_client_position,
            final(child).child_count == old(child).child_count,
            final(child).dirty == old(child).dirty,
            final(child).solved_local == old(child).solved_local,
            Self::content_unchanged(*old(child), *final(child)),
    {
        let index = self.child_count;
        self.insert_child(child, index);
    }

    /// Detaches `child` from this node and taints this node. The model
    /// tracks attachment per child, so a detach is asked only for a node
    /// that is attached and only from its own parent — the discipline the
    /// owning tree already keeps, since a parent owns its children.
    pub fn remove_child(&mut self, child: &mut Self)
        requires
            old(child).attached,
            old(self).child_count >= 1,
        ensures
            final(self).tainted,
            final(self).child_count == old(self).child_count - 1,
            final(self).computed_client_position == old(self).computed_client_position,
            final(self).attached == old(self).attached,
            final(self).dirty == old(self).dirty,
            final(self).solved_local == old(self).solved_local,
            Self::content_unchanged(*old(self), *final(self)),
            !final(child).attached,
            final(child).tainted == old(child).tainted,
            final(child).computed_client_position == old(child).computed_client_position,
            final(child).child_count == old(child).child_count,
            final(child).dirty == old(child).dirty,
            final(child).solved_local == old(child).solved_local,
            Self::content_unchanged(*old(child), *final(child)),
    {
        self.child_count = self.child_count - 1;
        child.attached = false;
        self.tainted = true;
    }

    /// Applies the layout-relevant style declarations to the engine node
    /// and taints this node; the declarations themselves are opaque to
    /// this layer.
    pub fn apply_styles<S: StyleDeclarations>(&mut self, _styles: &S)
        ensures
            final(self).tainted,
            final(self).computed_client_position == old(self).computed_client_position,
            final(self).child_count == old(self).child_count,
            final(self).attached == old(self).attached,
            final(self).dirty == old(self).dirty,
            final(self).solved_local == old(self).solved_local,
            Self::content_unchanged(*old(self), *final(self)),
    {
        self.tainted = true;
    }

    /// Forces the engine to re-solve this node regardless of cache state —
    /// an explicit escape hatch independent of the tainted flag, which it
    /// leaves untouched.
    pub fn mark_dirty(&mut self)
        ensures
            final(self).dirty,
            final(self).tainted == old(self).tainted,
            final(self).computed_client_position == old(self).computed_client_position,
            final(self).child_count == old(self).child_count,
            final(self).attached == old(self).attached,
            final(self).solved_local == old(self).solved_local,
            Self::content_unchanged(*old(self), *final(self)),
    {
        self.dirty = true;
    }

    /// Feeds an already-resolved image measurement into the cache slot and
    /// reports whether it changed the layout; on a change the image
    /// context, the matching measurement callback and the aspect-ratio
    /// style are installed and the node is tainted, and on no change the
    /// engine is left untouched.
    pub fn apply_image_measurement(
        &mut self,
        resolved: Option<<R::Images as ImageCache>::Dimensions>,
    ) -> (changed: bool)
        requires
            old(self).child_count == 0,
        ensures
            changed == image_layout_differs(old(self).measured_image.value, resolved),
            (
                final(self).tainted,
                final(self).measured_image.value,
                final(self).context,
                final(self).aspect_ratio,
            ) == image_measure_transition(
                old(self).tainted,
                old(self).measured_image.value,
                old(self).context,
                old(self).aspect_ratio,
                resolved,
            ),
            final(self).shaped_text == old(self).shaped_text,
            Self::structure_unchanged(*old(self), *final(self)),
    {
        if !self.measured_image.should_relayout(resolved) {
            return false;
        }
        let width = match self.measured_image.width() {
            Some(w) => w,
            None => 0,
        };
        let height = match self.measured_image.height() {
            Some(h) => h,
            None => 0,
        };
        self.context = Some(NodeMeasureContext::Image(ImageNodeContext { width, height }));
        self.aspect_ratio = match (self.measured_image.width(), self.measured_image.height()) {
            (Some(w), Some(h)) => Some((w, h)),
            _ => Some((1, 1)),
        };
        self.tainted = true;
        true
    }

    /// Asks the image cache to measure the image behind `image_src` and
    /// feeds the outcome — whatever the cache answered — into
    /// `apply_image_measurement`.
    pub fn measure_self_as_image(&mut self, resources: &R, image_src: &str)
        requires
            old(self).child_count == 0,
        ensures
            exists|resolved: Option<<R::Images as ImageCache>::Dimensions>|
                (
                    final(self).tainted,
                    final(self).measured_image.value,
                    final(self).context,
                    final(self).aspect_ratio,
                ) == image_measure_transition(
                    old(self).tainted,
                    old(self).measured_image.value,
                    old(self).context,
                    old(self).aspect_ratio,
                    resolved,
                ),
            final(self).shaped_text == old(self).shaped_text,
            Self::structure_unchanged(*old(self), *final(self)),
    {
        let new_dimensions = resources.images().measure_image(image_src);
        let ghost witness = new_dimensions;
        let _ = self.apply_image_measurement(new_dimensions);
        assert((
            final(self).tainted,
            final(self).measured_image.value,
            final(self).context,
            final(self).aspect_ratio,
        ) == image_measure_transition(
            old(self).tainted,
            old(self).measured_image.value,
            old(self).context,
            old(self).aspect_ratio,
            witness,
        ));
    }

    /// Feeds an already-shaped text run into the cache slot and reports
    /// whether it changed the layout; on a change the text context and the
    /// matching measurement callback are installed and the node is
    /// tainted, and on no change the engine is left untouched.
    pub fn apply_text_measurement(
        &mut self,
        resolved: Option<<R::Fonts as FontCache>::Glyphs>,
    ) -> (changed: bool)
        requires
            old(self).child_count == 0,
        ensures
            changed == text_layout_differs(old(self).shaped_text.value, resolved),
            (final(self).tainted, final(self).shaped_text.value, final(self).context)
                == text_measure_transition(
                old(self).tainted,
                old(self).shaped_text.value,
                old(self).context,
                resolved,
            ),
            final(self).measured_image == old(self).measured_image,
            final(self).aspect_ratio == old(self).aspect_ratio,
            Self::structure_unchanged(*old(self), *final(self)),
    {
        if !self.shaped_text.should_relayout(resolved) {
            return false;
        }
        let width_64 = match self.shaped_text.width_64() {
            Some(w) => w,
            None => 0,
        };
        let height_64 = match self.shaped_text.height_64() {
            Some(h) => h,
            None => 0,
        };
        self.context = Some(NodeMeasureContext::Text(TextNodeContext { width_64, height_64 }));
        self.tainted = true;
        true
    }

    /// Shapes `source_text` with the first resolvable font — each family
    /// named by the computed styles in order, then the default font — at
    /// the style's point size or the documented default when the style's
    /// size is unrepresentable, and feeds the outcome into
    /// `apply_text_measurement`. A text that cannot be shaped at all
    /// resolves to no measured text, a normal state, not an error.
    pub fn measure_self_as_text<C: ComputedStyles>(
        &mut self,
        resources: &R,
        source_text: &str,
        metadata: &C,
    )
        requires
            old(self).child_count == 0,
        ensures
            exists|resolved: Option<<R::Fonts as FontCache>::Glyphs>|
                (final(self).tainted, final(self).shaped_text.value, final(self).context)
                    == text_measure_transition(
                    old(self).tainted,
                    old(self).shaped_text.value,
                    old(self).context,
                    resolved,
                ),
            final(self).measured_image == old(self).measured_image,
            final(self).aspect_ratio == old(self).aspect_ratio,
            Self::structure_unchanged(*old(self), *final(self)),
    {
        let cache = resources.fonts();
        let size = resolve_point_size(metadata.font_size());
        let families = metadata.font_families();
        let mut font: Option<<R::Fonts as FontCache>::Font> = None;
        let mut i: usize = 0;
        while i < families.len() && font.is_none()
            invariant
                i <= families.len(),
            decreases families.len() - i,
        {
            font = cache.get_font_with_size(families[i].as_str(), size);
            i = i + 1;
        }
        let font = match font {
            Some(f) => Some(f),
            None => cache.get_default_font_with_size(size),
        };
        let new_glyphs = match &font {
            Some(f) => cache.shape_text_h(f, source_text),
            None => None,
        };
        let ghost witness = new_glyphs;
        let _ = self.apply_text_measurement(new_glyphs);
        assert((final(self).tainted, final(self).shaped_text.value, final(self).context)
            == text_measure_transition(
            old(self).tainted,
            old(self).shaped_text.value,
            old(self).context,
            witness,
        ));
    }

    /// Records the offset assigned by this node's layout parent during the
    /// parent's positioning pass; overwrites unconditionally.
    pub fn set_computed_client_position(&mut self, computed: LayoutClientPosition)
        ensures
            final(self).computed_client_position == computed,
            final(self).tainted == old(self).tainted,
            final(self).child_count == old(self).child_count,
            final(self).attached == old(self).attached,
            final(self).dirty == old(self).dirty,
            final(self).solved_local == old(self).solved_local,
            Self::content_unchanged(*old(self), *final(self)),
    {
        self.computed_client_position = computed;
    }

    /// Records the engine's solved left/top/width/height for this node, as
    /// read back after a reflow of the subtree. Geometry handed to callers
    /// is always derived from this last solve: a mutation without a fresh
    /// reflow leaves it stale by contract.
    pub fn record_solved_layout(&mut self, left: u32, top: u32, width: u32, height: u32)
        ensures
            final(self).solved_local == (LayoutBoundingClientRect {
                position: LayoutClientPosition { left, top },
                size: LayoutClientSize { width, height },
            }),
            final(self).tainted == old(self).tainted,
            final(self).computed_client_position == old(self).computed_client_position,
            final(self).child_count == old(self).child_count,
            final(self).attached == old(self).attached,
            final(self).dirty == old(self).dirty,
            Self::content_unchanged(*old(self), *final(self)),
    {
        self.solved_local = LayoutBoundingClientRect {
            position: LayoutClientPosition { left, top },
            size: LayoutClientSize { width, height },
        };
    }

    /// The engine's solved rectangle for this node alone, with zero
    /// ancestor offset.
    pub fn get_local_bounding_client_rect(&self) -> (r: LayoutBoundingClientRect)
        ensures
            r == self.solved_local,
    {
        self.solved_local
    }

    /// The local rectangle translated by the offset this node's ancestor
    /// assigned: the node's page-relative box.
    pub fn get_global_bounding_client_rect(&self) -> (r: LayoutBoundingClientRect)
        requires
            self.solved_local.position.left + self.computed_client_position.left <= u32::MAX,
            self.solved_local.position.top + self.computed_client_position.top <= u32::MAX,
        ensures
            r == self.solved_local.spec_translated(self.computed_client_position),
    {
        self.get_local_bounding_client_rect().translated(self.computed_client_position)
    }

    /// Read-only view of the image cache slot.
    pub fn get_measured_image(&self) -> (r: &MeasuredImage<<R::Images as ImageCache>::Dimensions>)
        ensures
            *r == self.measured_image,
    {
        &self.measured_image
    }

    /// Read-only view of the text cache slot.
    pub fn get_shaped_text(&self) -> (r: &ShapedText<<R::Fonts as FontCache>::Glyphs>)
        ensures
            *r == self.shaped_text,
    {
        &self.shaped_text
    }
}

/// Layout nodes are opaque to the outside world and compare always-equal
/// on purpose; for identity checks between elements compare the owning
/// tree entities instead.
impl<R: ResourceGroup> PartialEq for LayoutNode<R> {
    fn eq(&self, _other: &Self) -> (r: bool) {
        true
    }
}

impl<R: ResourceGroup> vstd::std_specs::cmp::PartialEqSpecImpl for LayoutNode<R> {
    open spec fn obeys_eq_spec() -> bool {
        true
    }

    open spec fn eq_spec(&self, _other: &Self) -> bool {
        true
    }
}

/// Re-measuring content that resolves to the same extents is a no-op past
/// the baseline update: after one image measurement, a second whose
/// resolved value does not differ in layout from the first leaves the
/// tainted flag, the installed context and the aspect-ratio style exactly
/// as the first left them, and only re-baselines the cache.
pub proof fn lemma_image_remeasure_idempotent<D: DimensionsInfo>(
    tainted: bool,
    cache: Option<D>,
    context: Option<NodeMeasureContext>,
    aspect_ratio: Option<(u32, u32)>,
    resolved: Option<D>,
    resolved_again: Option<D>,
)
    requires
        !image_layout_differs(resolved, resolved_again),
    ensures
        ({
            let first = image_measure_transition(tainted, cache, context, aspect_ratio, resolved);
            let second = image_measure_transition(first.0, first.1, first.2, first.3, resolved_again);
            second == (first.0, resolved_again, first.2, first.3)
        }),
{
}

/// The text counterpart: a second text measurement whose resolved value
/// does not differ in layout from the first leaves the tainted flag and
/// the installed context exactly as the first left them, and only
/// re-baselines the cache.
pub proof fn lemma_text_remeasure_idempotent<G: GlyphStore>(
    tainted: bool,
    cache: Option<G>,
    context: Option<NodeMeasureContext>,
    resolved: Option<G>,
    resolved_again: Option<G>,
)
    requires
        !text_layout_differs(resolved, resolved_again),
    ensures
        ({
            let first = text_measure_transition(tainted, cache, context, resolved);
            let second = text_measure_transition(first.0, first.1, first.2, resolved_again);
            second == (first.0, resolved_again, first.2)
        }),
{
}

} // verus!
