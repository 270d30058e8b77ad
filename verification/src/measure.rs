//! The measurement-callback protocol: the per-node context attached to the
//! engine when a node is designated as image or text content, the engine's
//! per-axis sizing modes, and the resolution policy a measurement callback
//! applies to each axis.
//!
//! The context is a tagged value, so a callback reading the wrong kind of
//! context is unrepresentable here; the engine-facing shell that hands an
//! untyped context slot back to these functions must treat a tag mismatch
//! as a fatal error, never as a size of zero.

use vstd::prelude::*;

verus! {

/// Context attached to a node measured as an image: the cached dimensions
/// in whole pixels (zero when no image could be measured).
#[derive(Debug, PartialEq, Eq, Structural, Copy, Clone)]
pub struct ImageNodeContext {
    pub width: u32,
    pub height: u32,
}

/// Context attached to a node measured as text: the cached extents in
/// fixed-point 1/64-pixel units (zero when no text could be shaped).
#[derive(Debug, PartialEq, Eq, Structural, Copy, Clone)]
pub struct TextNodeContext {
    pub width_64: i32,
    pub height_64: i32,
}

/// The tagged per-node measurement context: exactly one kind is active on
/// a node at a time.
#[derive(Debug, PartialEq, Eq, Structural, Copy, Clone)]
pub enum NodeMeasureContext {
    Image(ImageNodeContext),
    Text(TextNodeContext),
}

/// The engine's sizing mode for one axis of one measurement request.
#[derive(Debug, PartialEq, Eq, Structural, Copy, Clone)]
pub enum SizingMode {
    /// The engine has already constrained this axis; the suggestion is final.
    Exactly,
    /// The content may be smaller than the suggestion but not larger.
    AtMost,
    /// The axis is unconstrained; the content's own size wins.
    Undefined,
}

/// Per-axis resolution policy: `Exactly` returns the suggested size
/// unchanged, `AtMost` caps the measured size at the suggestion, and
/// `Undefined` returns the measured size unconstrained.
pub open spec fn spec_resolve_axis(mode: SizingMode, measured: int, suggested: int) -> int {
    match mode {
        SizingMode::Exactly => suggested,
        SizingMode::AtMost => if measured < suggested {
            measured
        } else {
            suggested
        },
        SizingMode::Undefined => measured,
    }
}

/// Resolves one axis of an image measurement, in whole pixels.
pub fn resolve_measure_axis(mode: SizingMode, measured: u32, suggested: u32) -> (r: u32)
    ensures
        r == spec_resolve_axis(mode, measured as int, suggested as int),
{
    match mode {
        SizingMode::Exactly => suggested,
        SizingMode::AtMost => if measured < suggested {
            measured
        } else {
            suggested
        },
        SizingMode::Undefined => measured,
    }
}

/// Resolves one axis of a text measurement, in 1/64-pixel units.
pub fn resolve_measure_axis_64(mode: SizingMode, measured: i32, suggested: i32) -> (r: i32)
    ensures
        r == spec_resolve_axis(mode, measured as int, suggested as int),
{
    match mode {
        SizingMode::Exactly => suggested,
        SizingMode::AtMost => if measured < suggested {
            measured
        } else {
            suggested
        },
        SizingMode::Undefined => measured,
    }
}

/// The image measurement callback's whole decision: both axes resolved
/// from the attached context and the engine's suggestions, in pixels.
pub fn measure_image(
    context: &ImageNodeContext,
    width_mode: SizingMode,
    suggested_width: u32,
    height_mode: SizingMode,
    suggested_height: u32,
) -> (r: (u32, u32))
    ensures
        r.0 == spec_resolve_axis(width_mode, context.width as int, suggested_width as int),
        r.1 == spec_resolve_axis(height_mode, context.height as int, suggested_height as int),
{
    (
        resolve_measure_axis(width_mode, context.width, suggested_width),
        resolve_measure_axis(height_mode, context.height, suggested_height),
    )
}

/// The text measurement callback's whole decision: both axes resolved from
/// the attached context and the engine's suggestions, in 1/64-pixel units.
pub fn measure_text(
    context: &TextNodeContext,
    width_mode: SizingMode,
    suggested_width_64: i32,
    height_mode: SizingMode,
    suggested_height_64: i32,
) -> (r: (i32, i32))
    ensures
        r.0 == spec_resolve_axis(width_mode, context.width_64 as int, suggested_width_64 as int),
        r.1 == spec_resolve_axis(height_mode, context.height_64 as int, suggested_height_64 as int),
{
    (
        resolve_measure_axis_64(width_mode, context.width_64, suggested_width_64),
        resolve_measure_axis_64(height_mode, context.height_64, suggested_height_64),
    )
}

} // verus!
