//! Tests for render boxes, display-list construction and layout-data
//! attachment, over a small document tree.

use std::rc::Rc;
use layout_core::display_list::{DisplayItem, DisplayItemType, DisplayList};
use layout_core::geometry::{Point, Rect};
use layout_core::image_base::{Format, Image};
use layout_core::node::{Attr, ElementData, NodeData, NodeKind, NodeTree};
use layout_core::range::Range;
use layout_core::render_box::{adapt_textbox_with_range, GenericRenderBox, ImageRenderBox,
    RenderBox, RenderBoxBase, RenderBoxClass, UnscannedTextRenderBox};
use layout_core::style::{Color, ComputedStyle, LengthOrPercentageOrAuto, LineHeight,
    TextDecoration};
use layout_core::text_run::TextRun;

fn element_node(parent: Option<usize>, tag: &str, attrs: Vec<(String, String)>, style: ComputedStyle) -> NodeData {
    NodeData {
        parent,
        kind: NodeKind::Element(ElementData {
            tag: tag.to_string(),
            attrs: attrs.into_iter().map(|(name, value)| Attr { name, value }).collect(),
        }),
        style,
        layout_data: None,
    }
}

fn text_node(parent: usize, text: &str) -> NodeData {
    NodeData {
        parent: Some(parent),
        kind: NodeKind::Text(text.to_string()),
        style: ComputedStyle::initial(),
        layout_data: None,
    }
}

fn simple_tree() -> NodeTree {
    let mut root_style = ComputedStyle::initial();
    root_style.background_color = Color::rgb(10, 20, 30);
    root_style.width = LengthOrPercentageOrAuto::Length(600);
    NodeTree {
        nodes: vec![
            element_node(None, "html", vec![], root_style),
            element_node(Some(0), "img", vec![], ComputedStyle::initial()),
            text_node(0, "hello"),
        ],
    }
}

#[test]
fn box_classes_and_casts() {
    let tree = simple_tree();
    let generic = RenderBox::Generic(GenericRenderBox::new(RenderBoxBase::new(0, 0)));
    assert_eq!(generic.class(), RenderBoxClass::GenericRenderBoxClass);
    assert!(!generic.is_replaced());
    assert!(!generic.can_split());
    let image = RenderBox::Image(ImageRenderBox::new(&tree, RenderBoxBase::new(1, 1),
        "http://example.com/i.png".to_string()));
    assert_eq!(image.class(), RenderBoxClass::ImageRenderBoxClass);
    assert!(image.is_replaced());
    assert_eq!(image.as_image_render_box().base.node, 1);
    assert_eq!(generic.debug_str(), "box b0: GenericRenderBox");
}

#[test]
fn guessed_width_sums_the_boxs_own_contribution() {
    let tree = simple_tree();
    let base = RenderBoxBase::new(0, 0);
    // width 600, auto margins, zero padding and borders.
    assert_eq!(base.guess_width(&tree), 600);
    let bx = RenderBox::Generic(GenericRenderBox::new(base));
    let (min_w, pref_w) = bx.minimum_and_preferred_widths(&tree);
    assert_eq!((min_w, pref_w), (600, 600));
}

#[test]
fn image_box_reports_zero_until_the_holder_resolves() {
    // An image box with no width/height attributes and an unresolved
    // holder reports a zero size, then reflects the decoded size.
    let tree = simple_tree();
    let mut ib = ImageRenderBox::new(&tree, RenderBoxBase::new(1, 1), "i.png".to_string());
    assert_eq!(ib.image_width(&tree), 0);
    assert_eq!(ib.image_height(&tree), 0);
    ib.image.set_image(Image { width: 3, height: 2, format: Format::RGBA, data: vec![0; 24] });
    assert_eq!(ib.image_width(&tree), 3 * 60);
    assert_eq!(ib.image_height(&tree), 2 * 60);
    let mut bx = RenderBox::Image(ib);
    assert_eq!(bx.box_height(&tree), 2 * 60);
    assert_eq!(bx.base().position.size.height, 2 * 60);
}

#[test]
fn image_attributes_override_the_decoded_size() {
    let mut tree = simple_tree();
    tree.nodes[1] = element_node(Some(0), "img",
        vec![("width".to_string(), "50".to_string()), ("height".to_string(), "40".to_string())],
        ComputedStyle::initial());
    let mut ib = ImageRenderBox::new(&tree, RenderBoxBase::new(1, 1), "i.png".to_string());
    ib.image.set_image(Image { width: 3, height: 2, format: Format::RGBA, data: vec![0; 24] });
    assert_eq!(ib.image_width(&tree), 50 * 60);
    assert_eq!(ib.image_height(&tree), 40 * 60);
}

#[test]
fn unscanned_text_boxes_merge_only_on_matching_style() {
    // Two adjacent unscanned text boxes with identical font style and
    // text decoration merge; differing decoration refuses.
    let mut style_deco = ComputedStyle::initial();
    style_deco.text_decoration = TextDecoration::Underline;
    let tree = NodeTree {
        nodes: vec![
            element_node(None, "html", vec![], ComputedStyle::initial()),
            text_node(0, "one"),
            text_node(0, "two"),
            element_node(Some(0), "span", vec![], style_deco),
            text_node(3, "three"),
        ],
    };
    let a = RenderBox::UnscannedText(UnscannedTextRenderBox::new(&tree, RenderBoxBase::new(1, 1)));
    let b = RenderBox::UnscannedText(UnscannedTextRenderBox::new(&tree, RenderBoxBase::new(2, 2)));
    let c = RenderBox::UnscannedText(UnscannedTextRenderBox::new(&tree, RenderBoxBase::new(4, 3)));
    assert!(a.can_merge_with_box(&tree, &b));
    assert!(!a.can_merge_with_box(&tree, &c));
    let g = RenderBox::Generic(GenericRenderBox::new(RenderBoxBase::new(0, 0)));
    assert!(!a.can_merge_with_box(&tree, &g));
}

#[test]
fn whitespace_only_detection() {
    let tree = NodeTree {
        nodes: vec![
            element_node(None, "html", vec![], ComputedStyle::initial()),
            text_node(0, " \t\n"),
            text_node(0, " x "),
        ],
    };
    let ws = RenderBox::UnscannedText(UnscannedTextRenderBox::new(&tree, RenderBoxBase::new(1, 1)));
    let nonws = RenderBox::UnscannedText(UnscannedTextRenderBox::new(&tree,
        RenderBoxBase::new(2, 2)));
    assert!(ws.is_whitespace_only());
    assert!(!nonws.is_whitespace_only());
    assert_eq!(ws.as_unscanned_text_render_box().raw_text(), " \t\n");
}

#[test]
fn build_display_list_emits_nothing_outside_the_dirty_rect() {
    // Disjoint absolute bounds and dirty rect: zero items.
    let tree = simple_tree();
    let mut base = RenderBoxBase::new(0, 0);
    base.position = Rect::new(0, 0, 100, 100);
    let bx = RenderBox::Generic(GenericRenderBox::new(base));
    let mut list = DisplayList::new();
    let dirty = Rect::new(1000, 1000, 50, 50);
    bx.build_display_list(&tree, &dirty, &Point::new(0, 0), &mut list);
    assert_eq!(list.len(), 0);
}

#[test]
fn build_display_list_emits_background_inside_the_dirty_rect() {
    let tree = simple_tree();
    let mut base = RenderBoxBase::new(0, 0);
    base.position = Rect::new(0, 0, 100, 100);
    let bx = RenderBox::Generic(GenericRenderBox::new(base));
    let mut list = DisplayList::new();
    let dirty = Rect::new(0, 0, 50, 50);
    bx.build_display_list(&tree, &dirty, &Point::new(0, 0), &mut list);
    assert_eq!(list.len(), 1);
    match &list.list[0] {
        DisplayItem::SolidColor(sc) => {
            assert_eq!(sc.color, Color::rgb(10, 20, 30));
            assert_eq!(sc.base.bounds, Rect::new(0, 0, 100, 100));
        },
        other => panic!("expected a solid color item, got {:?}", other),
    }
}

#[test]
fn build_display_list_emits_text_and_border_items() {
    let mut tree = simple_tree();
    tree.nodes[0].style.border_top_width = 5;
    let run = TextRun::new("hi".chars().collect(), vec![60, 60], 960, 720);
    let mut base = RenderBoxBase::new(2, 7);
    base.position = Rect::new(0, 0, 120, 50);
    base.model.border.top = 5;
    let tb = adapt_textbox_with_range(base, Rc::new(run), Range::new(0, 2));
    let bx = RenderBox::Text(tb);
    let mut list = DisplayList::new();
    bx.build_display_list(&tree, &Rect::new(0, 0, 500, 500), &Point::new(10, 20), &mut list);
    // Background (root has one), the text itself, and the border.
    assert_eq!(list.len(), 3);
    assert_eq!(list.list[0].ty(), DisplayItemType::SolidColorType);
    assert_eq!(list.list[1].ty(), DisplayItemType::TextType);
    assert_eq!(list.list[2].ty(), DisplayItemType::BorderType);
    assert_eq!(list.list[1].bounds(), Rect::new(10, 20, 120, 50));
    let keys = list.keys();
    assert_eq!(keys.len(), 3);
    assert_eq!(keys[1].renderbox_uniq, 7);
    assert_eq!(keys[1].ty, DisplayItemType::TextType);
}

#[test]
fn image_boxes_paint_only_resolved_images() {
    let tree = simple_tree();
    let mut ib = ImageRenderBox::new(&tree, RenderBoxBase::new(1, 1), "i.png".to_string());
    ib.base.position = Rect::new(0, 0, 10, 10);
    let dirty = Rect::new(0, 0, 50, 50);
    let mut list = DisplayList::new();
    RenderBox::Image(ib.clone()).build_display_list(&tree, &dirty, &Point::new(0, 0), &mut list);
    // Nothing yet: the img element's own background is transparent and
    // the holder has no image.
    assert_eq!(list.len(), 0);
    ib.image.set_image(Image { width: 1, height: 1, format: Format::RGBA, data: vec![1, 2, 3, 4] });
    let mut list2 = DisplayList::new();
    RenderBox::Image(ib).build_display_list(&tree, &dirty, &Point::new(0, 0), &mut list2);
    assert_eq!(list2.len(), 1);
    assert_eq!(list2.list[0].ty(), DisplayItemType::ImageType);
}

#[test]
fn content_box_accounts_for_border_and_padding() {
    let mut base = RenderBoxBase::new(0, 0);
    base.position = Rect::new(100, 50, 200, 80);
    base.model.border.left = 3;
    base.model.border.right = 4;
    base.model.padding.left = 10;
    base.model.padding.right = 20;
    let cb = base.content_box();
    assert_eq!(cb.origin, Point::new(113, 50));
    assert_eq!(cb.size.width, 200 - (3 + 10 + 4 + 20));
    assert_eq!(cb.size.height, 80);
    assert_eq!(base.border_box(), cb);
    assert_eq!(base.margin_box(), cb);
    assert_eq!(base.get_noncontent_width(), 37);
    assert_eq!(base.id(), 0);
}

#[test]
fn text_box_height_follows_line_height() {
    let mut tree = simple_tree();
    tree.nodes[0].style.line_height = LineHeight::Number(150);
    let run = TextRun::new("hi".chars().collect(), vec![60, 60], 960, 720);
    let tb = adapt_textbox_with_range(RenderBoxBase::new(2, 0), Rc::new(run), Range::new(0, 2));
    let mut bx = RenderBox::Text(tb);
    // em height 960 scaled by 1.50.
    assert_eq!(bx.box_height(&tree), 960 * 150 / 100);
    tree.nodes[0].style.line_height = LineHeight::NormalHeight;
    assert_eq!(bx.box_height(&tree), 960 * 114 / 100);
    tree.nodes[0].style.line_height = LineHeight::Px(777);
    assert_eq!(bx.box_height(&tree), 777);
}

#[test]
fn initialize_layout_data_is_idempotent() {
    // A second call reports "already existed" and clears only the
    // display-list and range state.
    let mut tree = simple_tree();
    let first = tree.initialize_layout_data(0);
    assert_eq!(first, Some(0));
    {
        let ld = tree.nodes[0].layout_data.as_mut().unwrap();
        ld.display_list = Some(DisplayList::new());
        ld.range = Some(Range::new(1, 2));
        ld.style = Some(ComputedStyle::initial());
    }
    let second = tree.initialize_layout_data(0);
    assert_eq!(second, None);
    let ld = tree.nodes[0].layout_data.as_ref().unwrap();
    assert!(ld.display_list.is_none());
    assert!(ld.range.is_none());
    assert!(ld.style.is_some());
}

#[test]
fn initialize_style_for_subtree_collects_new_records_in_order() {
    let mut tree = simple_tree();
    tree.initialize_layout_data(2);
    let mut refs: Vec<usize> = Vec::new();
    tree.initialize_style_for_subtree(0, &mut refs);
    // Node 2 already had a record; 0 and 1 are newly created.
    assert_eq!(refs, vec![0, 1]);
    for i in 0..3 {
        assert!(tree.nodes[i].layout_data.is_some());
    }
}

#[test]
fn nearest_ancestor_element_walks_past_text_nodes() {
    let tree = simple_tree();
    assert_eq!(tree.nearest_ancestor_element(2), 0);
    assert_eq!(tree.nearest_ancestor_element(1), 1);
    assert_eq!(tree.nearest_ancestor_element(0), 0);
}

#[test]
fn text_decoration_propagates_through_static_ancestors() {
    let mut deco = ComputedStyle::initial();
    deco.text_decoration = TextDecoration::LineThrough;
    let tree = NodeTree {
        nodes: vec![
            element_node(None, "html", vec![], deco),
            element_node(Some(0), "span", vec![], ComputedStyle::initial()),
            text_node(1, "t"),
        ],
    };
    assert_eq!(tree.propagated_text_decoration(2), TextDecoration::LineThrough);
    assert_eq!(tree.propagated_text_decoration(0), TextDecoration::LineThrough);
}

#[test]
fn generic_and_image_boxes_cannot_split() {
    let tree = simple_tree();
    let generic = RenderBox::Generic(GenericRenderBox::new(RenderBoxBase::new(0, 0)));
    assert!(matches!(generic.split_to_width(600, true),
        layout_core::render_box::SplitBoxResult::CannotSplit));
    let image = RenderBox::Image(ImageRenderBox::new(&tree, RenderBoxBase::new(1, 1),
        "i.png".to_string()));
    assert!(matches!(image.split_to_width(600, false),
        layout_core::render_box::SplitBoxResult::CannotSplit));
}

#[test]
fn rect_intersection_is_strict() {
    let a = Rect::new(0, 0, 10, 10);
    let b = Rect::new(10, 0, 10, 10);
    let c = Rect::new(9, 9, 10, 10);
    let empty_at_edge = Rect::new(10, 0, 0, 10);
    assert!(!a.intersects(&b));
    assert!(a.intersects(&c));
    assert!(!a.intersects(&empty_at_edge));
    assert_eq!(a.translate(&Point::new(3, 4)), Rect::new(3, 4, 10, 10));
}
