use ffi_gpui::color::{Color, ResolvedColor, UNIT_ONE_BITS};
use ffi_gpui::element::{JSElement, RenderNode, StyleOp};
use ffi_gpui::length::{Len, ResolvedLength};

fn div_with(
    flex: Option<bool>,
    bg: Option<Color>,
    justify_center: Option<bool>,
    items_center: Option<bool>,
    shadow_lg: Option<bool>,
    border: Option<bool>,
    border_color: Option<Color>,
    text_xl: Option<bool>,
    text_color: Option<Color>,
    size: Option<Len>,
    children: Option<Vec<JSElement>>,
) -> JSElement {
    JSElement::Div {
        z_index: None,
        full: None,
        relative: None,
        absolute: None,
        block: None,
        flex,
        visible: None,
        invisible: None,
        overflow_hidden: None,
        overflow_x_hidden: None,
        overflow_y_hidden: None,
        cursor: None,
        cursor_default: None,
        cursor_pointer: None,
        cursor_text: None,
        cursor_move: None,
        cursor_not_allowed: None,
        cursor_context_menu: None,
        cursor_crosshair: None,
        cursor_vertical_text: None,
        cursor_alias: None,
        cursor_copy: None,
        cursor_no_drop: None,
        cursor_grab: None,
        cursor_grabbing: None,
        bg,
        justify_center,
        items_center,
        shadow_lg,
        border,
        border_color,
        text_xl,
        text_color,
        size,
        children,
    }
}

fn empty_div() -> JSElement {
    div_with(None, None, None, None, None, None, None, None, None, None, None)
}

#[test]
fn unit_one_bits_is_one() {
    assert_eq!(UNIT_ONE_BITS, 1.0f32.to_bits());
}

#[test]
fn rgb_hex_full_red() {
    let resolved = Color::RgbHex(0xFF0000).resolve();
    assert_eq!(resolved, ResolvedColor::Rgba8 { r: 255, g: 0, b: 0, a: 255 });
}

#[test]
fn rgba_hex_red_half_alpha() {
    let resolved = Color::RgbaHex(0xFF000080).resolve();
    assert_eq!(resolved, ResolvedColor::Rgba8 { r: 255, g: 0, b: 0, a: 0x80 });
}

#[test]
fn rgba_hex_channel_layout() {
    let resolved = Color::RgbaHex(0x11223344).resolve();
    assert_eq!(resolved, ResolvedColor::Rgba8 { r: 0x11, g: 0x22, b: 0x33, a: 0x44 });
}

#[test]
fn rgb_promotes_to_rgba_with_unit_alpha() {
    let r = 0.25f32.to_bits();
    let g = 0.5f32.to_bits();
    let b = 0.75f32.to_bits();
    let from_rgb = Color::Rgb { r, g, b }.resolve();
    let from_rgba = Color::Rgba { r, g, b, a: 1.0f32.to_bits() }.resolve();
    assert_eq!(from_rgb, from_rgba);
    assert_eq!(from_rgb, ResolvedColor::RgbaUnit { r, g, b, a: 1.0f32.to_bits() });
}

#[test]
fn hsl_promotes_to_hsla_with_unit_alpha() {
    let h = 0.1f32.to_bits();
    let s = 0.9f32.to_bits();
    let l = 0.4f32.to_bits();
    let from_hsl = Color::Hsl { h, s, l }.resolve();
    let from_hsla = Color::Hsla { h, s, l, a: 1.0f32.to_bits() }.resolve();
    assert_eq!(from_hsl, from_hsla);
    assert_eq!(from_hsl, ResolvedColor::HslaUnit { h, s, l, a: 1.0f32.to_bits() });
}

#[test]
fn auto_payload_is_inert() {
    assert_eq!(Len::Auto(true).resolve(), ResolvedLength::Auto);
    assert_eq!(Len::Auto(false).resolve(), ResolvedLength::Auto);
    assert_eq!(Len::Auto(true).resolve(), Len::Auto(false).resolve());
}

#[test]
fn definite_lengths_pass_through() {
    let px = 12.5f32.to_bits();
    let rems = 2.0f32.to_bits();
    let frac = 0.5f32.to_bits();
    assert_eq!(Len::DefiniteAbsolutePixels(px).resolve(), ResolvedLength::Pixels(px));
    assert_eq!(Len::DefiniteAbsoluteRems(rems).resolve(), ResolvedLength::Rems(rems));
    assert_eq!(Len::DefiniteFraction(frac).resolve(), ResolvedLength::Fraction(frac));
}

#[test]
fn empty_container_resolves_to_empty_box() {
    match empty_div().element() {
        RenderNode::Container { ops, children, size } => {
            assert!(ops.is_empty());
            assert!(children.is_empty());
            assert!(size.is_none());
        }
        RenderNode::Text(_) => panic!("expected a container"),
    }
}

#[test]
fn empty_text_resolves_to_empty_leaf() {
    match JSElement::Text(String::new()).element() {
        RenderNode::Text(text) => assert_eq!(text, ""),
        RenderNode::Container { .. } => panic!("expected a text leaf"),
    }
}

#[test]
fn ops_follow_fixed_order() {
    let e = div_with(
        Some(true),
        Some(Color::RgbHex(0xFF0000)),
        Some(true),
        Some(true),
        Some(true),
        Some(true),
        Some(Color::RgbHex(0x00FF00)),
        Some(true),
        Some(Color::RgbHex(0x0000FF)),
        None,
        None,
    );
    match e.element() {
        RenderNode::Container { ops, .. } => {
            assert_eq!(
                ops,
                vec![
                    StyleOp::Flex,
                    StyleOp::Background(ResolvedColor::Rgba8 { r: 255, g: 0, b: 0, a: 255 }),
                    StyleOp::JustifyCenter,
                    StyleOp::ItemsCenter,
                    StyleOp::ShadowLg,
                    StyleOp::Border,
                    StyleOp::BorderColor(ResolvedColor::Rgba8 { r: 0, g: 255, b: 0, a: 255 }),
                    StyleOp::TextXl,
                    StyleOp::TextColor(ResolvedColor::Rgba8 { r: 0, g: 0, b: 255, a: 255 }),
                ]
            );
        }
        RenderNode::Text(_) => panic!("expected a container"),
    }
}

#[test]
fn false_flags_are_not_applied() {
    let e = div_with(
        Some(false),
        None,
        Some(false),
        None,
        None,
        Some(false),
        None,
        Some(false),
        None,
        None,
        None,
    );
    match e.element() {
        RenderNode::Container { ops, .. } => assert!(ops.is_empty()),
        RenderNode::Text(_) => panic!("expected a container"),
    }
}

#[test]
fn size_is_resolved_and_applied() {
    let frac = 0.5f32.to_bits();
    let e = div_with(
        None,
        None,
        None,
        None,
        None,
        None,
        None,
        None,
        None,
        Some(Len::DefiniteFraction(frac)),
        None,
    );
    match e.element() {
        RenderNode::Container { size, .. } => {
            assert_eq!(size, Some(ResolvedLength::Fraction(frac)));
        }
        RenderNode::Text(_) => panic!("expected a container"),
    }
}

#[test]
fn children_keep_their_order() {
    let e = div_with(
        None,
        None,
        None,
        None,
        None,
        None,
        None,
        None,
        None,
        None,
        Some(vec![
            JSElement::Text(String::from("a")),
            JSElement::Text(String::from("b")),
            JSElement::Text(String::from("c")),
        ]),
    );
    match e.element() {
        RenderNode::Container { children, .. } => {
            assert_eq!(children.len(), 3);
            let texts: Vec<&str> = children
                .iter()
                .map(|c| match c {
                    RenderNode::Text(t) => t.as_str(),
                    RenderNode::Container { .. } => panic!("expected a text leaf"),
                })
                .collect();
            assert_eq!(texts, vec!["a", "b", "c"]);
        }
        RenderNode::Text(_) => panic!("expected a container"),
    }
}

#[test]
fn present_empty_child_list_resolves_like_absent() {
    let e = div_with(None, None, None, None, None, None, None, None, None, None, Some(vec![]));
    match e.element() {
        RenderNode::Container { ops, children, size } => {
            assert!(ops.is_empty());
            assert!(children.is_empty());
            assert!(size.is_none());
        }
        RenderNode::Text(_) => panic!("expected a container"),
    }
}

#[test]
fn deep_nesting_resolves() {
    let depth: usize = 1000;
    let mut e = JSElement::Text(String::from("leaf"));
    for _ in 0..depth {
        e = div_with(None, None, None, None, None, None, None, None, None, None, Some(vec![e]));
    }
    let mut node = e.element();
    let mut levels: usize = 0;
    loop {
        match node {
            RenderNode::Container { mut children, .. } => {
                assert_eq!(children.len(), 1);
                levels += 1;
                node = children.pop().unwrap();
            }
            RenderNode::Text(t) => {
                assert_eq!(t, "leaf");
                break;
            }
        }
    }
    assert_eq!(levels, depth);
}
