use rsx_layout::ConstFontSource;
use rsx_layout::ConstImageSource;
use rsx_layout::ConstResources;
use rsx_layout::ImageDimensions;
use rsx_layout::ImageNodeContext;
use rsx_layout::LayoutBoundingClientRect;
use rsx_layout::LayoutClientPosition;
use rsx_layout::LayoutNode;
use rsx_layout::NodeMeasureContext;
use rsx_layout::PlainComputedStyles;
use rsx_layout::PlainStyleSet;
use rsx_layout::ShapedRun;
use rsx_layout::TextNodeContext;

fn fresh() -> LayoutNode<ConstResources> {
    LayoutNode::make_initial_layout_node()
}

fn resources_with_image(dimensions: Option<ImageDimensions>) -> ConstResources {
    ConstResources {
        fonts: ConstFontSource { has_named_font: false, has_default_font: false, shaped: None },
        images: ConstImageSource { dimensions },
    }
}

fn resources_with_text(has_named_font: bool, has_default_font: bool, shaped: Option<ShapedRun>) -> ConstResources {
    ConstResources {
        fonts: ConstFontSource { has_named_font, has_default_font, shaped },
        images: ConstImageSource { dimensions: None },
    }
}

#[test]
fn initial_node_is_untainted_and_empty() {
    let node = fresh();
    assert!(!node.is_tainted());
    assert_eq!(node.computed_client_position, LayoutClientPosition { left: 0, top: 0 });
    assert_eq!(node.get_measured_image().value, None);
    assert_eq!(node.get_shaped_text().value, None);
    assert_eq!(node.context, None);
    assert_eq!(node.aspect_ratio, None);
    assert_eq!(node.child_count, 0);
    assert!(!node.attached);
    assert!(!node.dirty);
    assert_eq!(node.get_local_bounding_client_rect(), LayoutBoundingClientRect::new(0, 0, 0, 0));
}

#[test]
fn nodes_compare_always_equal_on_purpose() {
    let a = fresh();
    let mut b = fresh();
    b.tainted = true;
    b.child_count = 3;
    assert!(a == b);
}

#[test]
fn structural_mutations_taint_and_track_children() {
    let mut parent = fresh();
    let mut first = fresh();
    let mut second = fresh();

    parent.append_child(&mut first);
    assert!(parent.is_tainted());
    assert_eq!(parent.child_count, 1);
    assert!(first.attached);
    assert!(!first.is_tainted());

    parent.insert_child(&mut second, 0);
    assert_eq!(parent.child_count, 2);
    assert!(second.attached);

    parent.remove_child(&mut first);
    assert_eq!(parent.child_count, 1);
    assert!(!first.attached);
    assert!(parent.is_tainted());
}

#[test]
fn reset_custom_styles_is_a_named_no_op() {
    let mut node = fresh();
    node.tainted = true;
    node.child_count = 2;
    node.reset_custom_styles();
    assert!(node.tainted);
    assert_eq!(node.child_count, 2);
}

#[test]
fn applying_styles_taints() {
    let mut node = fresh();
    node.apply_styles(&PlainStyleSet { layout_count: 4 });
    assert!(node.is_tainted());
}

#[test]
fn mark_dirty_is_independent_of_tainted() {
    let mut node = fresh();
    node.mark_dirty();
    assert!(node.dirty);
    assert!(!node.is_tainted());
}

#[test]
fn image_measurement_installs_context_and_aspect_ratio() {
    let mut node = fresh();
    let resources = resources_with_image(Some(ImageDimensions { width: 32, height: 16, key: 1 }));
    node.measure_self_as_image(&resources, "logo");
    assert!(node.is_tainted());
    assert_eq!(node.get_measured_image().value, Some(ImageDimensions { width: 32, height: 16, key: 1 }));
    assert_eq!(node.context, Some(NodeMeasureContext::Image(ImageNodeContext { width: 32, height: 16 })));
    assert_eq!(node.aspect_ratio, Some((32, 16)));
}

#[test]
fn unchanged_image_remeasurement_is_idempotent() {
    let mut node = fresh();
    let resources = resources_with_image(Some(ImageDimensions { width: 32, height: 16, key: 1 }));
    node.measure_self_as_image(&resources, "logo");
    let context_after_first = node.context;

    // same dimensions under a different resource key: no relayout trigger
    node.tainted = false;
    let resources = resources_with_image(Some(ImageDimensions { width: 32, height: 16, key: 2 }));
    node.measure_self_as_image(&resources, "logo");
    assert!(!node.is_tainted());
    assert_eq!(node.context, context_after_first);
    assert_eq!(node.aspect_ratio, Some((32, 16)));
    // the cache baseline still took the new value
    assert_eq!(node.get_measured_image().value, Some(ImageDimensions { width: 32, height: 16, key: 2 }));
}

#[test]
fn missing_image_measures_as_absent_with_fallback_aspect_ratio() {
    let mut node = fresh();
    let resources = resources_with_image(Some(ImageDimensions { width: 32, height: 16, key: 1 }));
    node.measure_self_as_image(&resources, "logo");

    node.tainted = false;
    let resources = resources_with_image(None);
    node.measure_self_as_image(&resources, "logo");
    assert!(node.is_tainted());
    assert_eq!(node.get_measured_image().value, None);
    assert_eq!(node.context, Some(NodeMeasureContext::Image(ImageNodeContext { width: 0, height: 0 })));
    assert_eq!(node.aspect_ratio, Some((1, 1)));
}

#[test]
fn text_measurement_installs_text_context() {
    let mut node = fresh();
    let shaped = ShapedRun { width_64: 3200, height_64: 1280, font_key: 4, font_instance_key: 5, glyphs: vec![10, 11] };
    let resources = resources_with_text(true, true, Some(shaped.clone()));
    let styles = PlainComputedStyles { font_size: Some(14), families: vec![String::from("FreeSans")] };
    node.measure_self_as_text(&resources, "Hello world !", &styles);
    assert!(node.is_tainted());
    assert_eq!(node.get_shaped_text().value, Some(shaped));
    assert_eq!(node.context, Some(NodeMeasureContext::Text(TextNodeContext { width_64: 3200, height_64: 1280 })));
}

#[test]
fn text_measurement_falls_back_to_the_default_font() {
    let mut node = fresh();
    let shaped = ShapedRun { width_64: 640, height_64: 640, font_key: 9, font_instance_key: 10, glyphs: vec![] };
    // no named family resolves, the default font does
    let resources = resources_with_text(false, true, Some(shaped.clone()));
    let styles = PlainComputedStyles { font_size: None, families: vec![String::from("NoSuchFont")] };
    node.measure_self_as_text(&resources, "x", &styles);
    assert_eq!(node.get_shaped_text().value, Some(shaped));
    assert!(node.is_tainted());
}

#[test]
fn unshapeable_text_measures_as_absent_not_as_an_error() {
    let mut node = fresh();
    let resources = resources_with_text(false, false, None);
    let styles = PlainComputedStyles { font_size: Some(14), families: vec![] };
    node.measure_self_as_text(&resources, "x", &styles);
    // nothing was cached before, nothing resolved now: no change at all
    assert!(!node.is_tainted());
    assert_eq!(node.get_shaped_text().value, None);
    assert_eq!(node.context, None);
}

#[test]
fn unchanged_text_remeasurement_is_idempotent() {
    let mut node = fresh();
    let shaped = ShapedRun { width_64: 3200, height_64: 1280, font_key: 4, font_instance_key: 5, glyphs: vec![10] };
    let resources = resources_with_text(true, true, Some(shaped));
    let styles = PlainComputedStyles { font_size: Some(14), families: vec![String::from("FreeSans")] };
    node.measure_self_as_text(&resources, "Hello", &styles);
    let context_after_first = node.context;

    // same extents under a different font key: no relayout trigger
    node.tainted = false;
    let other = ShapedRun { width_64: 3200, height_64: 1280, font_key: 7, font_instance_key: 8, glyphs: vec![] };
    let resources = resources_with_text(true, true, Some(other.clone()));
    node.measure_self_as_text(&resources, "Hello", &styles);
    assert!(!node.is_tainted());
    assert_eq!(node.context, context_after_first);
    assert_eq!(node.get_shaped_text().value, Some(other));
}

#[test]
fn solved_geometry_composes_local_and_ancestor_offset() {
    let mut node = fresh();
    node.record_solved_layout(10, 20, 50, 60);
    assert!(!node.is_tainted());
    assert_eq!(node.get_local_bounding_client_rect(), LayoutBoundingClientRect::new(10, 20, 50, 60));
    // zero offset: global equals local
    assert_eq!(node.get_global_bounding_client_rect(), LayoutBoundingClientRect::new(10, 20, 50, 60));

    node.set_computed_client_position(LayoutClientPosition { left: 100, top: 200 });
    let global = node.get_global_bounding_client_rect();
    assert_eq!(global, LayoutBoundingClientRect::new(110, 220, 50, 60));
    // translation never touches the size
    assert_eq!(global.size(), node.get_local_bounding_client_rect().size());
}
