use extension_gui::elements::{
    AlignContent, Background, Color, CursorStyle, DefiniteLength, EdgesLength, EventFlags, FontWeight,
    Hsla, JustifyContent, Length, UiTree, F32_0, F32_1, F32_2,
};
use extension_gui::elements::{empty_events, empty_style};
use extension_gui::events::UiEvent;
use extension_gui::flatten::render_tree;
use extension_gui::renderer::{
    apply_style, attach_drag_drop_handlers, attach_focus_handler, attach_keyboard_event_handlers,
    attach_mouse_event_handlers, click_event, cvt_length, hover_event, icon_path, mouse_data_from_click,
    render_ui_tree, resolve_color, ElementKey, HostAbsolute, HostClick, HostCursor, HostDefinite,
    HostElement, HostLength, HostListener, HostModifiers, HostMouseButton, HostStyle, ThemeColor,
};
use extension_gui::elements::IconSource;
use extension_gui::ui::{div, Input, Label};

fn mods() -> HostModifiers {
    HostModifiers { shift: true, control: false, alt: true, platform: false }
}

#[test]
fn lengths_convert_and_fr_becomes_auto() {
    assert_eq!(cvt_length(Length::Px(F32_2)), HostLength::Definite(HostDefinite::Absolute(HostAbsolute::Pixels(F32_2))));
    assert_eq!(cvt_length(Length::Relative(F32_1)), HostLength::Definite(HostDefinite::Fraction(F32_1)));
    assert_eq!(cvt_length(Length::Fr(F32_1)), HostLength::Auto);
}

#[test]
fn colors_resolve_to_theme_slots() {
    assert_eq!(resolve_color(Color::BorderMuted), Some(ThemeColor::BorderVariant));
    assert_eq!(resolve_color(Color::Accent), Some(ThemeColor::TextAccent));
    assert_eq!(resolve_color(Color::Transparent), None);
    assert_eq!(resolve_color(Color::BorderTransparent), None);
    let h = Hsla { h: 1, s: 2, l: 3, a: 4 };
    assert_eq!(resolve_color(Color::Hsla(h)), Some(ThemeColor::Custom(h)));
}

#[test]
fn apply_style_converts_each_property() {
    let mut s = empty_style();
    s.padding = Some(EdgesLength { top: Length::Auto, right: Length::Px(F32_1), bottom: Length::Px(F32_1), left: Length::Px(F32_1) });
    s.gap = Some(DefiniteLength::Px(F32_1));
    s.row_gap = Some(DefiniteLength::Px(F32_2));
    s.justify_content = Some(JustifyContent::SpaceBetween);
    s.font_weight = Some(FontWeight::SemiBold);
    s.cursor = Some(CursorStyle::ResizeEw);
    s.background = Some(Background::Color(Color::Transparent));
    s.text_color = Some(Color::Transparent);
    let mut host = HostStyle::new();
    host.background = Some(ThemeColor::Text);
    host.text_color = Some(ThemeColor::Text);
    apply_style(&mut host, &s);
    assert_eq!(host.padding_top, Some(HostDefinite::Absolute(HostAbsolute::Pixels(F32_0))));
    assert_eq!(host.padding_left, Some(HostDefinite::Absolute(HostAbsolute::Pixels(F32_1))));
    assert_eq!(host.gap_width, Some(HostDefinite::Absolute(HostAbsolute::Pixels(F32_1))));
    assert_eq!(host.gap_height, Some(HostDefinite::Absolute(HostAbsolute::Pixels(F32_2))));
    assert_eq!(host.justify_content, Some(AlignContent::SpaceBetween));
    assert_eq!(host.font_weight, Some(600));
    assert_eq!(host.mouse_cursor, Some(HostCursor::ResizeLeftRight));
    // A transparent background leaves the background alone, a transparent
    // text color clears it.
    assert_eq!(host.background, Some(ThemeColor::Text));
    assert_eq!(host.text_color, None);
}

#[test]
fn mouse_click_data() {
    let c = HostClick::Mouse { x: 5, y: 6, button: HostMouseButton::Middle, click_count: 2, modifiers: mods() };
    let d = mouse_data_from_click(&c);
    assert_eq!(d.button, 2);
    assert_eq!(d.click_count, 2);
    assert!(d.shift && d.alt && !d.ctrl && !d.meta);
    let k = mouse_data_from_click(&HostClick::Keyboard);
    assert_eq!(k.click_count, 1);
    assert_eq!(k.button, 0);
    let b = HostClick::Mouse { x: 0, y: 0, button: HostMouseButton::Back, click_count: 1, modifiers: mods() };
    assert_eq!(mouse_data_from_click(&b).button, 0);
}

#[test]
fn double_clicks_need_two_presses() {
    let once = HostClick::Mouse { x: 0, y: 0, button: HostMouseButton::Left, click_count: 1, modifiers: mods() };
    let twice = HostClick::Mouse { x: 0, y: 0, button: HostMouseButton::Left, click_count: 2, modifiers: mods() };
    assert!(matches!(click_event(true, true, &twice), Some(UiEvent::DoubleClicked(_))));
    assert!(matches!(click_event(true, true, &once), Some(UiEvent::Clicked(_))));
    assert!(matches!(click_event(true, false, &twice), Some(UiEvent::Clicked(_))));
    assert!(click_event(false, true, &once).is_none());
    assert!(matches!(click_event(false, true, &HostClick::Keyboard), None));
    assert!(matches!(hover_event(true), UiEvent::HoverStart));
    assert!(matches!(hover_event(false), UiEvent::HoverEnd));
}

#[test]
fn listeners_follow_flags() {
    let mut e: EventFlags = empty_events();
    e.on_double_click = true;
    e.on_hover = true;
    e.on_key_up = true;
    e.on_drag = true;
    e.on_drop = true;
    let mut v = Vec::new();
    attach_mouse_event_handlers(&mut v, &e);
    attach_keyboard_event_handlers(&mut v, &e);
    attach_drag_drop_handlers(&mut v, &e);
    assert_eq!(v, vec![
        HostListener::Click { single: false, double: true },
        HostListener::Hover,
        HostListener::KeyUp,
        HostListener::DragStart,
        HostListener::Drop,
    ]);
    e.on_mouse_down = true;
    let mut w = Vec::new();
    attach_mouse_event_handlers(&mut w, &e);
    attach_drag_drop_handlers(&mut w, &e);
    assert_eq!(w, vec![
        HostListener::Click { single: false, double: true },
        HostListener::Hover,
        HostListener::MouseDown,
        HostListener::DragStart,
        HostListener::Drop,
    ]);
}

#[test]
fn focus_is_tracked_only_for_created_handles() {
    assert_eq!(attach_focus_handler(Some(3), &vec![1, 3]), Some(3));
    assert_eq!(attach_focus_handler(Some(4), &vec![1, 3]), None);
    assert_eq!(attach_focus_handler(None, &vec![1, 3]), None);
}

#[test]
fn icon_paths() {
    assert_eq!(icon_path(&IconSource::Named("check".to_string())), "icons/check.svg");
    assert_eq!(icon_path(&IconSource::Path("a/b.svg".to_string())), "a/b.svg");
}

#[test]
fn renders_a_flat_tree() {
    let root = div()
        .id("root".to_string())
        .child(Label::new("hello".to_string()))
        .child(Input::new("q".to_string(), String::new()).placeholder("type".to_string()));
    let tree = render_tree(root);
    let fields: Vec<String> = Vec::new();
    let el = render_ui_tree(&tree, &fields, &vec![]);
    match el {
        HostElement::Div(d) => {
            assert!(matches!(&d.key, ElementKey::Name(n) if n == "root"));
            assert_eq!(d.source_id, "root");
            assert_eq!(d.children.len(), 2);
            match &d.children[0] {
                HostElement::Text { content, .. } => assert_eq!(content, "hello"),
                _ => panic!("expected text"),
            }
            match &d.children[1] {
                HostElement::Input { text, style, .. } => {
                    assert_eq!(text.as_deref(), Some("type"));
                    assert_eq!(style.text_color, Some(ThemeColor::TextPlaceholder));
                    assert_eq!(style.mouse_cursor, Some(HostCursor::IBeam));
                },
                _ => panic!("expected input"),
            }
        },
        _ => panic!("expected a container"),
    }
    let with_field = vec!["q".to_string()];
    match render_ui_tree(&tree, &with_field, &vec![]) {
        HostElement::Div(d) => match &d.children[1] {
            HostElement::Input { text, .. } => assert!(text.is_none()),
            _ => panic!("expected input"),
        },
        _ => panic!("expected a container"),
    }
}

#[test]
fn empty_tree_and_missing_root() {
    let empty = UiTree { nodes: vec![], root: 0 };
    assert!(matches!(render_ui_tree(&empty, &vec![], &vec![]), HostElement::Empty));
    let t = render_tree(div());
    let missing = UiTree { nodes: t.nodes, root: 5 };
    assert!(matches!(render_ui_tree(&missing, &vec![], &vec![]), HostElement::Empty));
    let unnamed = render_tree(div());
    match render_ui_tree(&unnamed, &vec![], &vec![]) {
        HostElement::Div(d) => {
            assert!(matches!(d.key, ElementKey::Integer(0)));
            assert_eq!(d.source_id, "");
        },
        _ => panic!("expected a container"),
    }

}

#[test]
fn backward_and_dangling_links_render_like_any_other() {
    let t = render_tree(div().child(div()).child(Label::new("x".to_string())));
    assert_eq!(t.nodes.len(), 3);
    let mut backward = t.clone();
    backward.nodes.swap(1, 2);
    if let extension_gui::elements::UiNode::Div(d) = &mut backward.nodes[2] {
        d.children = vec![1];
    }
    if let extension_gui::elements::UiNode::Div(d) = &mut backward.nodes[0] {
        d.children = vec![1, 2];
    }
    match render_ui_tree(&backward, &vec![], &vec![]) {
        HostElement::Div(root) => {
            assert_eq!(root.children.len(), 2);
            assert!(matches!(root.children[0], HostElement::Text { .. }));
            match &root.children[1] {
                HostElement::Div(inner) => {
                    assert_eq!(inner.children.len(), 1);
                    assert!(matches!(inner.children[0], HostElement::Text { .. }));
                },
                _ => panic!("expected a container"),
            }
        },
        _ => panic!("expected a container"),
    }
    let mut dangling = t.clone();
    if let extension_gui::elements::UiNode::Div(d) = &mut dangling.nodes[0] {
        d.children.push(7);
    }
    match render_ui_tree(&dangling, &vec![], &vec![]) {
        HostElement::Div(root) => {
            assert_eq!(root.children.len(), 3);
            assert!(matches!(root.children[2], HostElement::Empty));
        },
        _ => panic!("expected a container"),
    }
    let mut looped = t.clone();
    if let extension_gui::elements::UiNode::Div(d) = &mut looped.nodes[1] {
        d.children.push(0);
    }
    assert!(matches!(render_ui_tree(&looped, &vec![], &vec![]), HostElement::Div(_)));
}
