//! Tests for the text input control, the HTML tree-builder decisions, and
//! image decoding with its post-processing.

use layout_core::html_parser::{build_element_from_tag, DiscoveryRequest, ElementType,
    HeadingLevel, ScriptAction};
use layout_core::image_base::{byte_swap, byte_swap_and_premultiply, load_from_memory, Format};
use layout_core::node::{Attr, ElementData, NodeData, NodeKind, NodeTree};
use layout_core::render_box::parse_px_attr;
use layout_core::style::ComputedStyle;
use layout_core::textinput::{KeyReaction, TextInput};

#[test]
fn textinput_insert_and_content_round_trip() {
    let mut t = TextInput::new(false, "ab".to_string());
    assert!(matches!(t.handle_keydown("End"), KeyReaction::Nothing));
    assert!(matches!(t.handle_keydown("c"), KeyReaction::DispatchInput));
    assert_eq!(t.get_content(), "abc");
    assert!(matches!(t.handle_keydown("Backspace"), KeyReaction::DispatchInput));
    assert_eq!(t.get_content(), "ab");
    assert!(matches!(t.handle_keydown("Tab"), KeyReaction::TriggerDefaultAction));
}

#[test]
fn textinput_multiline_splits_and_joins() {
    let mut t = TextInput::new(true, "one\ntwo".to_string());
    assert_eq!(t.lines.len(), 2);
    assert_eq!(t.get_content(), "one\ntwo");
    // Enter on a multiline control breaks the current line at the cursor.
    assert!(matches!(t.handle_keydown("ArrowRight"), KeyReaction::Nothing));
    assert!(matches!(t.handle_keydown("Enter"), KeyReaction::DispatchInput));
    assert_eq!(t.get_content(), "o\nne\ntwo");
    // Enter on a single-line control triggers the default action.
    let mut s = TextInput::new(false, "x".to_string());
    assert!(matches!(s.handle_keydown("Enter"), KeyReaction::TriggerDefaultAction));
    assert_eq!(s.get_content(), "x");
}

#[test]
fn textinput_arrows_move_across_lines() {
    let mut t = TextInput::new(true, "ab\ncd".to_string());
    assert!(matches!(t.handle_keydown("ArrowDown"), KeyReaction::Nothing));
    assert_eq!((t.edit_point.line, t.edit_point.index), (1, 0));
    assert!(matches!(t.handle_keydown("ArrowLeft"), KeyReaction::Nothing));
    // Stepping left at a line start climbs to the previous line's end.
    assert_eq!((t.edit_point.line, t.edit_point.index), (0, 2));
    assert!(matches!(t.handle_keydown("ArrowRight"), KeyReaction::Nothing));
    assert_eq!((t.edit_point.line, t.edit_point.index), (1, 0));
    assert!(matches!(t.handle_keydown("ArrowUp"), KeyReaction::Nothing));
    assert_eq!((t.edit_point.line, t.edit_point.index), (0, 0));
}

#[test]
fn textinput_space_and_delete() {
    let mut t = TextInput::new(false, "ac".to_string());
    assert!(matches!(t.handle_keydown("ArrowRight"), KeyReaction::Nothing));
    assert!(matches!(t.handle_keydown("Space"), KeyReaction::DispatchInput));
    assert_eq!(t.get_content(), "a c");
    assert!(matches!(t.handle_keydown("Home"), KeyReaction::Nothing));
    assert!(matches!(t.handle_keydown("Delete"), KeyReaction::DispatchInput));
    assert_eq!(t.get_content(), " c");
    assert!(matches!(t.handle_keydown("F13"), KeyReaction::Nothing));
    assert_eq!(t.get_content(), " c");
}

#[test]
fn tag_names_map_to_element_types() {
    assert_eq!(build_element_from_tag("div"), ElementType::HTMLDivElement);
    assert_eq!(build_element_from_tag("a"), ElementType::HTMLAnchorElement);
    assert_eq!(build_element_from_tag("img"), ElementType::HTMLImageElement);
    assert_eq!(build_element_from_tag("iframe"), ElementType::HTMLIframeElement);
    assert_eq!(build_element_from_tag("h3"),
        ElementType::HTMLHeadingElement(HeadingLevel::Heading3));
    assert_eq!(build_element_from_tag("td"), ElementType::HTMLTableDataCellElement);
    assert_eq!(build_element_from_tag("b"), ElementType::HTMLElement);
    assert_eq!(build_element_from_tag("colgroup"), ElementType::HTMLTableColElement);
    assert_eq!(build_element_from_tag("blink"), ElementType::HTMLUnknownElement);
}

fn one_element_tree(tag: &str, attrs: Vec<(&str, &str)>) -> NodeTree {
    NodeTree {
        nodes: vec![NodeData {
            parent: None,
            kind: NodeKind::Element(ElementData {
                tag: tag.to_string(),
                attrs: attrs.into_iter().map(|(n, v)| Attr {
                    name: n.to_string(),
                    value: v.to_string(),
                }).collect(),
            }),
            style: ComputedStyle::initial(),
            layout_data: None,
        }],
    }
}

#[test]
fn stylesheet_links_are_discovered() {
    let tree = one_element_tree("link", vec![("rel", "stylesheet"), ("href", "a.css")]);
    match tree.discovery_request(0) {
        Some(DiscoveryRequest::LoadStylesheet(href)) => assert_eq!(href, "a.css"),
        other => panic!("expected a stylesheet request, got {:?}", other),
    }
    let other_rel = one_element_tree("link", vec![("rel", "icon"), ("href", "a.ico")]);
    assert!(other_rel.discovery_request(0).is_none());
    let plain = one_element_tree("div", vec![]);
    assert!(plain.discovery_request(0).is_none());
}

#[test]
fn iframes_and_images_are_discovered() {
    let frame = one_element_tree("iframe", vec![("src", "page.html"), ("sandbox", "")]);
    match frame.discovery_request(0) {
        Some(DiscoveryRequest::LoadIFrame(src, sandboxed)) => {
            assert_eq!(src, "page.html");
            assert!(sandboxed);
        },
        other => panic!("expected an iframe request, got {:?}", other),
    }
    let img = one_element_tree("img", vec![("src", "p.png")]);
    match img.discovery_request(0) {
        Some(DiscoveryRequest::UpdateImage(Some(src))) => assert_eq!(src, "p.png"),
        other => panic!("expected an image update, got {:?}", other),
    }
}

#[test]
fn script_actions_distinguish_external_and_inline() {
    let external = one_element_tree("script", vec![("src", "s.js")]);
    match external.script_action(0) {
        ScriptAction::ExternalScript(src) => assert_eq!(src, "s.js"),
        other => panic!("expected an external script, got {:?}", other),
    }
    let mut inline = one_element_tree("script", vec![]);
    inline.nodes.push(NodeData {
        parent: Some(0),
        kind: NodeKind::Text("var a".to_string()),
        style: ComputedStyle::initial(),
        layout_data: None,
    });
    inline.nodes.push(NodeData {
        parent: Some(0),
        kind: NodeKind::Text(" = 1;".to_string()),
        style: ComputedStyle::initial(),
        layout_data: None,
    });
    match inline.script_action(0) {
        ScriptAction::InlineScript(text) => assert_eq!(text, "var a = 1;"),
        other => panic!("expected an inline script, got {:?}", other),
    }
}

#[test]
fn pixel_attributes_parse_within_bounds() {
    assert_eq!(parse_px_attr("42"), Some(42));
    assert_eq!(parse_px_attr("-7"), Some(-7));
    assert_eq!(parse_px_attr("0"), Some(0));
    assert_eq!(parse_px_attr(""), None);
    assert_eq!(parse_px_attr("-"), None);
    assert_eq!(parse_px_attr("4x"), None);
    assert_eq!(parse_px_attr("99999999999999999999"), None);
}

#[test]
fn byte_swap_and_premultiply_scales_by_alpha() {
    let mut red = vec![255u8, 0, 0, 255];
    byte_swap_and_premultiply(&mut red);
    assert_eq!(red, vec![0, 0, 255, 255]);
    let mut half = vec![100u8, 50, 200, 128];
    byte_swap_and_premultiply(&mut half);
    assert_eq!(half, vec![100, 25, 50, 128]);
}

#[test]
fn byte_swap_exchanges_red_and_blue() {
    let mut px = vec![1u8, 2, 3, 4, 5, 6, 7, 8];
    byte_swap(&mut px);
    assert_eq!(px, vec![3, 2, 1, 4, 7, 6, 5, 8]);
}

#[test]
fn load_from_memory_rejects_an_empty_buffer() {
    assert!(load_from_memory(&[]).is_none());
    assert!(load_from_memory(&[1, 2, 3]).is_none());
}

#[test]
fn load_from_memory_decodes_and_premultiplies_png() {
    // Encode a 1x1 blue pixel as PNG, then decode it through the library:
    // the stored data must come back byte-swapped and premultiplied.
    let raw = image::RgbaImage::from_raw(1, 1, vec![0, 0, 255, 255]).unwrap();
    let mut png_bytes: Vec<u8> = Vec::new();
    raw.write_to(&mut std::io::Cursor::new(&mut png_bytes), image::ImageFormat::Png).unwrap();
    let img = load_from_memory(&png_bytes).expect("decode failed");
    assert_eq!((img.width, img.height), (1, 1));
    assert_eq!(img.format, Format::RGBA);
    // Swapping red and blue moves the blue byte to the front.
    assert_eq!(img.data, vec![255, 0, 0, 255]);
}

#[test]
fn load_from_memory_inverts_greyscale() {
    let raw = image::GrayImage::from_raw(2, 1, vec![10, 200]).unwrap();
    let mut png_bytes: Vec<u8> = Vec::new();
    raw.write_to(&mut std::io::Cursor::new(&mut png_bytes), image::ImageFormat::Png).unwrap();
    let img = load_from_memory(&png_bytes).expect("decode failed");
    assert_eq!((img.width, img.height), (2, 1));
    assert_eq!(img.format, Format::Luma);
    assert_eq!(img.data, vec![245, 55]);
}
