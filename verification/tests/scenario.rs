//! Scenario fixtures: the engine-solved per-node rectangles of two known
//! layouts are handed back to the nodes, and the layer's own bookkeeping —
//! tainted lifecycle, page-relative composition, containment — is checked
//! against the documented values. The flexbox solve itself belongs to the
//! external engine and is not re-run here.

use rsx_layout::ConstResources;
use rsx_layout::LayoutBoundingClientRect;
use rsx_layout::LayoutClientPosition;
use rsx_layout::LayoutNode;
use rsx_layout::PlainStyleSet;

fn fresh() -> LayoutNode<ConstResources> {
    LayoutNode::make_initial_layout_node()
}

#[test]
fn absolute_block_in_a_square_container() {
    // a styled block at absolute (10,20) sized (50,60) inside a 100 x 100
    // container; the block's text child stretches to the block's box
    let mut container = fresh();
    let mut block = fresh();
    let mut text = fresh();

    container.apply_styles(&PlainStyleSet { layout_count: 2 });
    block.apply_styles(&PlainStyleSet { layout_count: 5 });
    container.append_child(&mut block);
    block.append_child(&mut text);
    assert!(container.is_tainted());
    assert!(block.is_tainted());

    // local rectangles in document order, as the engine solves them
    container.record_solved_layout(0, 0, 100, 100);
    block.record_solved_layout(10, 20, 50, 60);
    text.record_solved_layout(0, 0, 50, 60);

    assert_eq!(container.get_local_bounding_client_rect(), LayoutBoundingClientRect::new(0, 0, 100, 100));
    assert_eq!(block.get_local_bounding_client_rect(), LayoutBoundingClientRect::new(10, 20, 50, 60));
    assert_eq!(text.get_local_bounding_client_rect(), LayoutBoundingClientRect::new(0, 0, 50, 60));

    // the positioning pass assigns each child its ancestor's page offset
    block.set_computed_client_position(container.get_global_bounding_client_rect().position());
    let block_global = block.get_global_bounding_client_rect();
    assert_eq!(block_global, LayoutBoundingClientRect::new(10, 20, 50, 60));
    text.set_computed_client_position(block_global.position());
    assert_eq!(text.get_global_bounding_client_rect(), LayoutBoundingClientRect::new(10, 20, 50, 60));
}

#[test]
fn padded_row_with_image_and_flexing_text() {
    // a row of width 500 and height 120 with 20-unit padding, holding a
    // fixed-width image and a flex-growing text node of height 25 centered
    // on the cross axis, solved inside a 1000 x 1000 viewport
    let mut root = fresh();
    let mut image = fresh();
    let mut text = fresh();

    root.apply_styles(&PlainStyleSet { layout_count: 7 });
    image.apply_styles(&PlainStyleSet { layout_count: 3 });
    text.apply_styles(&PlainStyleSet { layout_count: 4 });
    root.append_child(&mut image);
    root.append_child(&mut text);
    assert_eq!(root.child_count, 2);

    // the engine's solved local rectangles: the image's height (83) comes
    // from the cross-axis stretch, not from its intrinsic aspect
    root.record_solved_layout(0, 0, 500, 120);
    image.record_solved_layout(20, 20, 80, 83);
    text.record_solved_layout(120, 48, 360, 25);

    assert_eq!(root.get_local_bounding_client_rect(), LayoutBoundingClientRect::new(0, 0, 500, 120));
    assert_eq!(image.get_local_bounding_client_rect(), LayoutBoundingClientRect::new(20, 20, 80, 83));
    assert_eq!(text.get_local_bounding_client_rect(), LayoutBoundingClientRect::new(120, 48, 360, 25));

    let root_position = root.get_global_bounding_client_rect().position();
    image.set_computed_client_position(root_position);
    text.set_computed_client_position(root_position);
    assert_eq!(image.get_global_bounding_client_rect(), LayoutBoundingClientRect::new(20, 20, 80, 83));
    assert_eq!(text.get_global_bounding_client_rect(), LayoutBoundingClientRect::new(120, 48, 360, 25));

    // hit-testing against the solved, page-relative geometry
    assert!(image.get_global_bounding_client_rect().contains_point((50, 50)));
    assert!(!image.get_global_bounding_client_rect().contains_point((20, 50)));
    assert!(!text.get_global_bounding_client_rect().contains_point((50, 50)));
}

#[test]
fn offset_row_inside_a_translated_root() {
    // the same padded row solved at an ancestor offset: every global
    // rectangle is the local one translated by the ancestor's position
    let mut root = fresh();
    let mut image = fresh();

    root.append_child(&mut image);
    root.record_solved_layout(0, 0, 500, 120);
    image.record_solved_layout(20, 20, 80, 83);

    root.set_computed_client_position(LayoutClientPosition { left: 128, top: 50 });
    assert_eq!(root.get_global_bounding_client_rect(), LayoutBoundingClientRect::new(128, 50, 500, 120));
    image.set_computed_client_position(root.get_global_bounding_client_rect().position());
    assert_eq!(image.get_global_bounding_client_rect(), LayoutBoundingClientRect::new(148, 70, 80, 83));
}
