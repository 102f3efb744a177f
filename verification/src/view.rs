//! What a built element tree shows and offers, independent of its styling:
//! the texts it displays, in reading order and with their colors, and the
//! ids of the controls a user can click or type into. The demo panels state
//! their views in these terms.
use vstd::prelude::*;
use crate::elements::{Background, Color, DefiniteLength, Style, F32Bits, Length, F32_1, F32_2, F32_6, F32_8};
use crate::events::{HandlerKind, HandlerRegistry};
use crate::flatten::{children_size, node_size};
use crate::elements::opt_text;
use crate::shape::{
    push_shape, push_shapes, clickable, column_style, div_shape, no_style, plain, shape, shapes, style_v, sv_bg, sv_border_1,
    sv_border_color, sv_color, sv_cursor_pointer, sv_gap_y, sv_h, sv_muted, sv_p_3, sv_px, sv_px_3, sv_py,
    sv_py_1, sv_rounded_md, sv_rounded_sm, sv_size_full, sv_text_sm, sv_text_xs, sv_w_full, Shape,
};
use crate::ui::{color_border, color_error, div, is_fresh_div, v_flex, AnyNode, Div, Input, Label};
use vstd::arithmetic::power2::{
    lemma2_to64, lemma_pow2_adds, lemma_pow2_strictly_increases, lemma_pow2_unfold, pow2,
};

verus! {

/// A displayed text and its color (`None` for the default color).
pub type Shown = (Seq<char>, Option<Color>);

/// The texts a node displays, in reading order.
pub open spec fn node_labels(n: AnyNode) -> Seq<Shown>
    decreases n,
{
    match n {
        AnyNode::Div(d) => labels_list(d.children@),
        AnyNode::Text(t, s) => seq![(t@, s.text_color)],
        _ => Seq::empty(),
    }
}

/// The texts a list of nodes displays, in order.
pub open spec fn labels_list(s: Seq<AnyNode>) -> Seq<Shown>
    decreases s,
{
    if s.len() == 0 {
        Seq::empty()
    } else {
        labels_list(s.drop_last()) + node_labels(s.last())
    }
}

/// The texts a container displays.
pub open spec fn div_labels(d: Div) -> Seq<Shown> {
    labels_list(d.children@)
}

/// The ids of the controls of a node, in reading order: a container with
/// an id that reports clicks, then the controls inside it; an input.
pub open spec fn node_controls(n: AnyNode) -> Seq<Seq<char>>
    decreases n,
{
    match n {
        AnyNode::Div(d) => (match d.id {
            Some(id) => if d.events.on_click { seq![id@] } else { Seq::empty() },
            None => Seq::empty(),
        }) + controls_list(d.children@),
        AnyNode::Input(id, _, _, _, _) => seq![id@],
        _ => Seq::empty(),
    }
}

/// The controls of a list of nodes, in order.
pub open spec fn controls_list(s: Seq<AnyNode>) -> Seq<Seq<char>>
    decreases s,
{
    if s.len() == 0 {
        Seq::empty()
    } else {
        controls_list(s.drop_last()) + node_controls(s.last())
    }
}

/// The controls of a container, itself included.
pub open spec fn div_controls(d: Div) -> Seq<Seq<char>> {
    node_controls(AnyNode::Div(d))
}

/// The number of nodes of a container's subtree.
pub open spec fn div_size(d: Div) -> nat {
    node_size(AnyNode::Div(d))
}

/// The controls inside a container.
pub open spec fn inner_controls(d: Div) -> Seq<Seq<char>> {
    controls_list(d.children@)
}

/// The shape of a label.
pub open spec fn label_shape(l: Label) -> Shape {
    Shape::Text(l.text@, style_v(l.style))
}

/// The shapes of a list of containers.
pub open spec fn divs_shapes(v: Seq<Div>) -> Seq<Shape>
    decreases v.len(),
{
    if v.len() == 0 {
        Seq::empty()
    } else {
        divs_shapes(v.drop_last()).push(div_shape(v.last()))
    }
}

/// Adds a label as the last child.
pub fn with_label(d: Div, l: Label) -> (r: Div)
    ensures
        r.id == d.id && r.events == d.events && r.style == d.style,
        div_labels(r) == div_labels(d) + seq![(l.text@, l.style.text_color)],
        inner_controls(r) == inner_controls(d),
        div_size(r) == div_size(d) + 1,
        div_shape(r) == push_shape(div_shape(d), label_shape(l)),
{
    proof {
        reveal(div_shape);
    }
    let ghost before = d.children@;
    let ghost text = l.text@;
    let ghost color = l.style.text_color;
    let ghost lv = l;
    let r = d.child(l);
    assert(r.children@.drop_last() =~= before);
    assert(r.children@.last() == AnyNode::Text(lv.text, lv.style));
    assert(shapes(r.children@) == shapes(before).push(shape(r.children@.last())));
    assert(node_labels(r.children@.last()) == seq![(text, color)]);
    assert(node_controls(r.children@.last()) =~= Seq::<Seq<char>>::empty());
    assert(inner_controls(r) =~= inner_controls(d));
    assert(children_size(r.children@) == children_size(before) + node_size(r.children@.last()));
    r
}

/// Adds a container as the last child.
pub fn with_div(d: Div, c: Div) -> (r: Div)
    ensures
        r.id == d.id && r.events == d.events && r.style == d.style,
        div_labels(r) == div_labels(d) + div_labels(c),
        inner_controls(r) == inner_controls(d) + div_controls(c),
        div_size(r) == div_size(d) + div_size(c),
        div_shape(r) == push_shape(div_shape(d), div_shape(c)),
{
    proof {
        reveal(div_shape);
    }
    let ghost before = d.children@;
    let ghost cc = c;
    let r = d.child(c);
    assert(r.children@.drop_last() =~= before);
    assert(r.children@.last() == AnyNode::Div(cc));
    assert(node_labels(AnyNode::Div(cc)) == div_labels(cc));
    assert(labels_list(r.children@) == labels_list(before) + node_labels(AnyNode::Div(cc)));
    assert(controls_list(r.children@) == controls_list(before) + node_controls(AnyNode::Div(cc)));
    assert(children_size(r.children@) == children_size(before) + node_size(AnyNode::Div(cc)));
    r
}

/// Adds an input as the last child.
pub fn with_input(d: Div, i: Input) -> (r: Div)
    ensures
        r.id == d.id && r.events == d.events && r.style == d.style,
        div_labels(r) == div_labels(d),
        inner_controls(r) == inner_controls(d) + seq![i.id@],
        div_size(r) == div_size(d) + 1,
        div_shape(r) == push_shape(div_shape(d), Shape::Input(i.id@, i.value@, opt_text(i.placeholder), i.disabled, style_v(i.style))),
{
    proof {
        reveal(div_shape);
    }
    let ghost before = d.children@;
    let ghost id = i.id@;
    let ghost iv = i;
    let r = d.child(i);
    assert(r.children@.drop_last() =~= before);
    assert(r.children@.last() == AnyNode::Input(iv.id, iv.value, iv.placeholder, iv.disabled, iv.style));
    assert(shapes(r.children@) == shapes(before).push(shape(r.children@.last())));
    assert(node_labels(r.children@.last()) =~= Seq::<Shown>::empty());
    assert(div_labels(r) =~= div_labels(d));
    assert(node_controls(r.children@.last()) == seq![id]);
    assert(controls_list(r.children@) == controls_list(before) + node_controls(r.children@.last()));
    assert(children_size(r.children@) == children_size(before) + node_size(r.children@.last()));
    r
}

/// The texts of a list of containers, one after the other.
pub open spec fn divs_labels(v: Seq<Div>) -> Seq<Shown>
    decreases v.len(),
{
    if v.len() == 0 {
        Seq::empty()
    } else {
        divs_labels(v.drop_last()) + div_labels(v.last())
    }
}

/// The controls of a list of containers, one after the other.
pub open spec fn divs_controls(v: Seq<Div>) -> Seq<Seq<char>>
    decreases v.len(),
{
    if v.len() == 0 {
        Seq::empty()
    } else {
        divs_controls(v.drop_last()) + div_controls(v.last())
    }
}

/// The number of nodes of a list of containers' subtrees.
pub open spec fn divs_size(v: Seq<Div>) -> nat
    decreases v.len(),
{
    if v.len() == 0 {
        0
    } else {
        divs_size(v.drop_last()) + div_size(v.last())
    }
}

/// Adds containers as the last children, in order.
pub fn with_divs(d: Div, items: Vec<Div>) -> (r: Div)
    ensures
        r.id == d.id && r.events == d.events && r.style == d.style,
        div_labels(r) == div_labels(d) + divs_labels(items@),
        inner_controls(r) == inner_controls(d) + divs_controls(items@),
        div_size(r) == div_size(d) + divs_size(items@),
        div_shape(r) == push_shapes(div_shape(d), divs_shapes(items@)),
{
    proof {
        reveal(div_shape);
    }
    let mut r = d;
    let mut rest = items;
    let ghost all = rest@;
    let mut k: usize = 0;
    let n = rest.len();
    assert(divs_shapes(all.take(0)) =~= Seq::<Shape>::empty());
    assert(shapes(d.children@) + divs_shapes(all.take(0)) =~= shapes(d.children@));
    while k < n
        invariant
            n == all.len(),
            k <= n,
            rest@ == all.skip(k as int),
            r.id == d.id && r.events == d.events && r.style == d.style,
            div_labels(r) == div_labels(d) + divs_labels(all.take(k as int)),
            inner_controls(r) == inner_controls(d) + divs_controls(all.take(k as int)),
            div_size(r) == div_size(d) + divs_size(all.take(k as int)),
            div_shape(r) == push_shapes(div_shape(d), divs_shapes(all.take(k as int))),
        decreases n - k,
    {
        let c = rest.remove(0);
        assert(c == all[k as int]);
        assert(rest@ =~= all.skip(k + 1));
        r = with_div(r, c);
        assert(all.take(k + 1).drop_last() =~= all.take(k as int));
        assert(all.take(k + 1).last() == all[k as int]);
        assert(div_labels(r) =~= div_labels(d) + divs_labels(all.take(k + 1)));
        assert(inner_controls(r) =~= inner_controls(d) + divs_controls(all.take(k + 1)));
        assert(div_shape(r) =~~= push_shapes(div_shape(d), divs_shapes(all.take(k + 1))));
        k += 1;
    }
    assert(all.take(n as int) =~= all);
    r
}


/// The handler registrations of clicks on the controls `ids`, in order,
/// each with a handler that does nothing.
pub open spec fn clicks(ids: Seq<Seq<char>>) -> Seq<(Seq<char>, HandlerKind, ())> {
    ids.map_values(|id: Seq<char>| (id, HandlerKind::Click, ()))
}

/// The shape of `rule()`.
#[verifier::opaque]
pub open spec fn rule_shape() -> Shape {
    plain(sv_bg(sv_h(sv_w_full(no_style()), Length::Px(F32_1)), Color::Border), seq![])
}

/// The shape of `refresh_button(..)`.
#[verifier::opaque]
pub open spec fn refresh_button_shape() -> Shape {
    let st = sv_px(no_style(), Length::Px(F32_6));
    let st = sv_py(st, Length::Px(F32_2));
    let st = sv_cursor_pointer(sv_border_color(sv_border_1(sv_rounded_sm(st)), Color::Border));
    clickable("refresh"@, st, seq![Shape::Text("↺"@, sv_muted(sv_text_xs(no_style())))])
}

/// The shape of `error_view(message, ..)`.
#[verifier::opaque]
pub open spec fn error_view_shape(message: Seq<char>) -> Shape {
    let retry_style = sv_cursor_pointer(sv_border_color(sv_border_1(sv_rounded_md(sv_py_1(sv_px_3(no_style())))), Color::Border));
    let retry = clickable("refresh"@, retry_style, seq![Shape::Text("Retry"@, sv_text_sm(no_style()))]);
    plain(
        sv_gap_y(sv_p_3(sv_size_full(column_style())), DefiniteLength::Px(F32_8)),
        seq![Shape::Text(message, sv_text_sm(sv_color(no_style(), Color::StatusError))), retry],
    )
}

/// A thin horizontal line across the panel: a fresh container, full width,
/// one pixel high, filled with the border colour.
pub fn rule() -> (r: Div)
    ensures
        r.style.width == Some(Length::Relative(F32_1)),
        r.style.height == Some(Length::Px(F32_1)),
        r.style.background == Some(Background::Color(Color::Border)),
        is_fresh_div(Div { style: Style { width: None, height: None, background: None, ..r.style }, ..r }),
        div_shape(r) == rule_shape(),
        div_labels(r) == Seq::<Shown>::empty(),
        div_controls(r) == Seq::<Seq<char>>::empty(),
        div_size(r) == 1,
{
    proof {
        reveal(rule_shape);
    }
    let r = div().w_full().h(Length::Px(F32_1)).bg(color_border());
    assert(div_controls(r) =~= Seq::<Seq<char>>::empty());
    r
}

/// The small refresh button of a panel header: the `↺` control `refresh`.
pub fn refresh_button(handlers: &mut HandlerRegistry<()>) -> (r: Div)
    ensures
        div_labels(r) == seq![("↺"@, Some(Color::TextMuted))],
        div_controls(r) == seq!["refresh"@],
        div_size(r) == 2,
        div_shape(r) == refresh_button_shape(),
        final(handlers)@ == old(handlers)@ + clicks(seq!["refresh"@]),
{
    proof {
        reveal(refresh_button_shape);
    }
    let b = div()
        .id("refresh".to_owned())
        .px(Length::Px(F32_6))
        .py(Length::Px(F32_2))
        .rounded_sm()
        .border_1()
        .border_color(color_border())
        .cursor_pointer()
        .on_click((), handlers);
    let r = with_label(b, Label::new("↺".to_owned()).text_xs().muted());
    assert(div_labels(r) =~= seq![("↺"@, Some(Color::TextMuted))]);
    assert(div_controls(r) =~= seq!["refresh"@]);
    assert(final(handlers)@ =~= old(handlers)@ + clicks(seq!["refresh"@]));
    r
}

/// A panel showing an error with a `Retry` button (the control `refresh`).
pub fn error_view(message: String, handlers: &mut HandlerRegistry<()>) -> (r: Div)
    ensures
        div_labels(r) == seq![(message@, Some(Color::StatusError)), ("Retry"@, None::<Color>)],
        div_controls(r) == seq!["refresh"@],
        div_size(r) == 4,
        div_shape(r) == error_view_shape(message@),
        final(handlers)@ == old(handlers)@ + clicks(seq!["refresh"@]),
{
    proof {
        reveal(error_view_shape);
    }
    let ghost m = message@;
    let retry = div()
        .id("refresh".to_owned())
        .px_3()
        .py_1()
        .rounded_md()
        .border_1()
        .border_color(color_border())
        .cursor_pointer()
        .on_click((), handlers);
    let retry = with_label(retry, Label::new("Retry".to_owned()).text_sm());
    let ghost retry_style = sv_cursor_pointer(sv_border_color(sv_border_1(sv_rounded_md(sv_py_1(sv_px_3(no_style())))), Color::Border));
    assert(div_shape(retry) == clickable("refresh"@, retry_style, seq![Shape::Text("Retry"@, sv_text_sm(no_style()))]));
    let r = v_flex().size_full().p_3().gap_y(DefiniteLength::Px(F32_8));
    assert(div_shape(r) == plain(sv_gap_y(sv_p_3(sv_size_full(column_style())), DefiniteLength::Px(F32_8)), seq![]));
    let r = with_label(r, Label::new(message).color(color_error()).text_sm());
    assert(div_shape(r) == plain(sv_gap_y(sv_p_3(sv_size_full(column_style())), DefiniteLength::Px(F32_8)),
        seq![Shape::Text(m, sv_text_sm(sv_color(no_style(), Color::StatusError)))]));
    let ghost rs = div_shape(retry);
    let r = with_div(r, retry);
    let ghost t = Shape::Text(m, sv_text_sm(sv_color(no_style(), Color::StatusError)));
    assert(seq![t].push(rs) =~= seq![t, rs]);
    assert(div_labels(r) =~= seq![(m, Some(Color::StatusError)), ("Retry"@, None::<Color>)]);
    assert(div_controls(r) =~= seq!["refresh"@]);
    assert(final(handlers)@ =~= old(handlers)@ + clicks(seq!["refresh"@]));
    r
}

/// The IEEE-754 single-precision bit pattern of a whole number `n` below
/// 2^24 whose highest set bit is `e`, which is exact: the biased exponent
/// `127 + e`, and the bits of `n` below the highest as the fraction.
pub open spec fn f32_bits_of(n: nat, e: nat) -> int {
    (127 + e) * pow2(23) + (n * pow2((23 - e) as nat) - pow2(23))
}

/// The bit pattern of the `f32` equal to `n`, for `n < 2^24`.
pub open spec fn spec_small_int_f32(n: nat) -> F32Bits {
    if n == 0 {
        0
    } else {
        let e = choose|e: nat| e <= 23 && #[trigger] pow2(e) <= n < pow2(e + 1);
        f32_bits_of(n, e) as F32Bits
    }
}

pub proof fn lemma_pow2_unique(n: nat, e1: nat, e2: nat)
    requires
        pow2(e1) <= n < pow2(e1 + 1),
        pow2(e2) <= n < pow2(e2 + 1),
    ensures
        e1 == e2,
{
    if e1 < e2 {
        if e1 + 1 < e2 {
            lemma_pow2_strictly_increases(e1 + 1, e2);
        }
    } else if e2 < e1 {
        if e2 + 1 < e1 {
            lemma_pow2_strictly_increases(e2 + 1, e1);
        }
    }
}

/// The `f32` bit pattern of a whole number below 2^24 (every such number
/// is exactly representable).
pub fn small_int_f32(n: u32) -> (r: F32Bits)
    requires
        n < 0x100_0000,
    ensures
        r == spec_small_int_f32(n as nat),
{
    if n == 0 {
        return 0;
    }
    proof {
        lemma2_to64();
    }
    let mut e: u32 = 0;
    let mut p: u32 = 1;
    while p <= n / 2
        invariant
            1 <= n < 0x100_0000,
            e <= 23,
            p == pow2(e as nat),
            1 <= p <= n,
            pow2(24) == 0x100_0000,
            pow2(23) == 0x80_0000,
        decreases n - p,
    {
        proof {
            lemma_pow2_unfold((e + 1) as nat);
            if e + 1 > 23 {
                lemma_pow2_strictly_increases(23, (e + 1) as nat);
                if e + 1 > 24 {
                    lemma_pow2_strictly_increases(24, (e + 1) as nat);
                }
            }
        }
        p = p * 2;
        e = e + 1;
    }
    proof {
        lemma_pow2_unfold((e + 1) as nat);
        assert(n < pow2(e as nat + 1));
        let c = choose|c: nat| c <= 23 && #[trigger] pow2(c) <= n < pow2(c + 1);
        assert(e as nat <= 23 && pow2(e as nat) <= n < pow2(e as nat + 1));
        lemma_pow2_unique(n as nat, c, e as nat);
    }
    let shift: u32 = 23 - e;
    let mut scale: u32 = 1;
    let mut k: u32 = 0;
    while k < shift
        invariant
            k <= shift,
            shift == 23 - e,
            e <= 23,
            scale == pow2(k as nat),
            pow2(23) == 0x80_0000,
        decreases shift - k,
    {
        proof {
            lemma_pow2_unfold((k + 1) as nat);
            if k + 1 < 23 {
                lemma_pow2_strictly_increases((k + 1) as nat, 23);
            }
        }
        scale = scale * 2;
        k = k + 1;
    }
    proof {
        lemma_pow2_adds(e as nat, shift as nat);
        lemma_pow2_unfold((e + 1) as nat);
        let pe = pow2(e as nat);
        assert(pe * scale == 0x80_0000);
        assert(n * scale < 2 * pe * scale) by (nonlinear_arith)
            requires n < 2 * pe, scale >= 1;
        assert(pe * scale <= n * scale) by (nonlinear_arith)
            requires pe <= n;
        assert(2 * pe * scale == 2 * (pe * scale)) by (nonlinear_arith);
    }
    let frac: u32 = n * scale - 0x80_0000;
    (127 + e) * 0x80_0000 + frac
}

} // verus!
