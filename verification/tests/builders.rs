use extension_gui::elements::{
    AbsoluteLength, Background, BoxShadow, Color, Hsla, PointF32, DisplayType, FlexDirection, Length, UiNode, F32_0_75, F32_1,
};
use extension_gui::events::{HandlerArg, HandlerKind, HandlerRegistry, MouseEventData, UiEvent};
use extension_gui::flatten::render_tree;
use extension_gui::ui::{color_accent, color_error, div, h_flex, v_flex, Label};

#[test]
fn fresh_div_has_nothing_set() {
    let d = div();
    assert!(d.id.is_none());
    assert!(d.children.is_empty());
    assert!(d.style.display.is_none());
    assert!(!d.events.on_click);
}

#[test]
fn flex_containers_set_direction() {
    let v = v_flex();
    assert_eq!(v.style.display, Some(DisplayType::Flex));
    assert_eq!(v.style.flex_direction, Some(FlexDirection::Column));
    let h = h_flex();
    assert_eq!(h.style.flex_direction, Some(FlexDirection::Row));
}

#[test]
fn padding_setters_keep_other_sides() {
    let d = div().px_3().py(Length::Px(F32_1));
    let p = d.style.padding.unwrap();
    assert_eq!(p.left, Length::Rems(F32_0_75));
    assert_eq!(p.right, Length::Rems(F32_0_75));
    assert_eq!(p.top, Length::Px(F32_1));
    assert_eq!(p.bottom, Length::Px(F32_1));
}

#[test]
fn label_styles() {
    let l = Label::new("x".to_string()).muted().text_xs();
    assert_eq!(l.style.text_color, Some(Color::TextMuted));
    assert_eq!(l.style.text_size, Some(AbsoluteLength::Rems(F32_0_75)));
    let l = Label::new("y".to_string()).color(color_error());
    assert_eq!(l.style.text_color, Some(Color::StatusError));
}

#[test]
fn background_color() {
    let d = div().bg(color_accent());
    assert_eq!(d.style.background, Some(Background::Color(Color::Accent)));
}

#[test]
fn render_tree_flattens_depth_first() {
    let mut handlers: HandlerRegistry<()> = HandlerRegistry::new();
    let inner = div().id("inner".to_string()).on_click((), &mut handlers).child(Label::new("b".to_string()));
    let root = v_flex().child(Label::new("a".to_string())).child(inner).child(Label::new("c".to_string()));
    let tree = render_tree(root);
    assert_eq!(tree.root, 0);
    assert_eq!(tree.nodes.len(), 5);
    match &tree.nodes[0] {
        UiNode::Div(d) => assert_eq!(d.children, vec![1, 2, 4]),
        _ => panic!("root is not a container"),
    }
    match &tree.nodes[2] {
        UiNode::Div(d) => {
            assert_eq!(d.id.as_deref(), Some("inner"));
            assert!(d.events.on_click);
            assert_eq!(d.children, vec![3]);
        },
        _ => panic!("node 2 is not a container"),
    }
    match &tree.nodes[3] {
        UiNode::Text(t) => assert_eq!(t.content, "b"),
        _ => panic!("node 3 is not text"),
    }
    match &tree.nodes[4] {
        UiNode::Text(t) => assert_eq!(t.content, "c"),
        _ => panic!("node 4 is not text"),
    }
}

fn click(count: u32) -> UiEvent {
    UiEvent::Clicked(MouseEventData {
        x: 0,
        y: 0,
        button: 0,
        click_count: count,
        shift: false,
        ctrl: false,
        alt: false,
        meta: false,
    })
}

#[test]
fn on_click_registers_and_dispatches() {
    let mut handlers: HandlerRegistry<u32> = HandlerRegistry::new();
    let _ = div().id("a".to_string()).on_click(7, &mut handlers);
    let _ = div().id("b".to_string()).on_click(8, &mut handlers);
    let _ = div().on_click(9, &mut handlers);
    assert_eq!(handlers.len(), 2);
    let calls = handlers.dispatch_event("b", &click(1));
    assert_eq!(calls.len(), 1);
    assert_eq!(calls[0].index, 1);
    assert_eq!(*handlers.handler(calls[0].index), 8);
    match &calls[0].arg {
        HandlerArg::Click(c) => assert_eq!(c.button, 0),
        _ => panic!("not a click"),
    }
    assert!(handlers.dispatch_event("c", &click(1)).is_empty());
}

#[test]
fn dispatch_after_clear_calls_nothing() {
    let mut handlers: HandlerRegistry<u32> = HandlerRegistry::new();
    handlers.register_handler("a".to_string(), HandlerKind::Click, 1);
    handlers.clear_handlers();
    assert_eq!(handlers.len(), 0);
    assert!(handlers.dispatch_event("a", &click(1)).is_empty());
}

#[test]
fn handlers_only_take_their_events() {
    let mut handlers: HandlerRegistry<u32> = HandlerRegistry::new();
    handlers.register_handler("a".to_string(), HandlerKind::KeyDown, 1);
    handlers.register_handler("a".to_string(), HandlerKind::Click, 2);
    let calls = handlers.dispatch_event("a", &click(1));
    assert_eq!(calls.len(), 1);
    assert_eq!(calls[0].index, 1);
}

#[test]
fn shadows_accumulate_in_order() {
    let a = BoxShadow { color: Hsla { h: 0, s: 0, l: 0, a: F32_1 }, offset: PointF32 { x: 0, y: F32_1 }, blur: F32_1, spread: 0 };
    let b = BoxShadow { blur: F32_0_75, ..a };
    let d = div().p_2().shadow(a).shadow(b);
    assert_eq!(d.style.box_shadows, vec![a, b]);
    assert_eq!(d.style.padding, div().p_2().style.padding);
}

#[test]
fn flattening_lists_every_node_but_the_root_once_as_a_child() {
    let tree = render_tree(
        v_flex()
            .child(h_flex().child(Label::new("a".to_string())).child(div()))
            .child(Label::new("b".to_string()))
            .child(div().child(div().child(Label::new("c".to_string())))),
    );
    let n = tree.nodes.len();
    assert_eq!(n, 8);
    let mut seen = vec![0usize; n];
    for (i, node) in tree.nodes.iter().enumerate() {
        if let UiNode::Div(d) = node {
            let mut last = i as u32;
            for &c in &d.children {
                assert!(c > last);
                last = c;
                seen[c as usize] += 1;
            }
        }
    }
    assert_eq!(seen[0], 0);
    assert!(seen[1..].iter().all(|&k| k == 1));
}
