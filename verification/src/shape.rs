//! The shape of an element tree as a value: every container with its id,
//! focus handle, style, events, tooltip and children, every text with its
//! style, every input with its content. Contracts of the panels' views state
//! the whole tree they build in these terms.
use vstd::prelude::*;
use crate::elements::{
    AbsoluteLength, AlignContent, AlignItems, Background, BoxShadow, Color, CornersAbsolute,
    CursorStyle, DefiniteLength, DisplayType, EdgesAbsolute, EdgesLength, EventFlags, F32Bits,
    FlexDirection, FlexWrap, FontStyle, FontWeight, JustifyContent, Length, OverflowType,
    PositionType, Style, TextAlign, TextDecoration, TextOverflow, VisibilityType, WhiteSpace,
    is_empty_style, opt_text, spec_abs_edges_all, spec_corners_all, spec_edges_all, spec_empty_events,
    F32_0, F32_0_25, F32_0_5, F32_0_75, F32_0_875, F32_1, F32_2, F32_6, F32_9999,
};
use crate::ui::spec_edges_or_zero;
use crate::ui::{AnyNode, Div};

verus! {

/// A style as a value: the properties that are set, with the list of
/// shadows and the font family taken by their views.
#[verifier::ext_equal]
pub struct StyleV {
    pub display: Option<DisplayType>,
    pub position: Option<PositionType>,
    pub visibility: Option<VisibilityType>,
    pub width: Option<Length>,
    pub height: Option<Length>,
    pub min_width: Option<DefiniteLength>,
    pub min_height: Option<DefiniteLength>,
    pub max_width: Option<DefiniteLength>,
    pub max_height: Option<DefiniteLength>,
    pub top: Option<Length>,
    pub right: Option<Length>,
    pub bottom: Option<Length>,
    pub left: Option<Length>,
    pub flex_direction: Option<FlexDirection>,
    pub flex_wrap: Option<FlexWrap>,
    pub align_items: Option<AlignItems>,
    pub align_content: Option<AlignContent>,
    pub justify_content: Option<JustifyContent>,
    pub gap: Option<DefiniteLength>,
    pub column_gap: Option<DefiniteLength>,
    pub row_gap: Option<DefiniteLength>,
    pub flex_grow: Option<F32Bits>,
    pub flex_shrink: Option<F32Bits>,
    pub flex_basis: Option<Length>,
    pub align_self: Option<AlignItems>,
    pub padding: Option<EdgesLength>,
    pub margin: Option<EdgesLength>,
    pub background: Option<Background>,
    pub opacity: Option<F32Bits>,
    pub border_widths: Option<EdgesAbsolute>,
    pub border_color: Option<Color>,
    pub corner_radii: Option<CornersAbsolute>,
    pub box_shadows: Seq<BoxShadow>,
    pub text_size: Option<AbsoluteLength>,
    pub text_color: Option<Color>,
    pub font_weight: Option<FontWeight>,
    pub font_style: Option<FontStyle>,
    pub font_family: Option<Seq<char>>,
    pub text_align: Option<TextAlign>,
    pub line_height: Option<DefiniteLength>,
    pub letter_spacing: Option<AbsoluteLength>,
    pub white_space: Option<WhiteSpace>,
    pub text_overflow: Option<TextOverflow>,
    pub text_decoration: Option<TextDecoration>,
    pub overflow_x: Option<OverflowType>,
    pub overflow_y: Option<OverflowType>,
    pub cursor: Option<CursorStyle>,
    pub z_index: Option<u32>,
    pub pointer_events: Option<bool>,
}

/// The value of a style.
pub open spec fn style_v(s: Style) -> StyleV {
    StyleV {
        display: s.display,
        position: s.position,
        visibility: s.visibility,
        width: s.width,
        height: s.height,
        min_width: s.min_width,
        min_height: s.min_height,
        max_width: s.max_width,
        max_height: s.max_height,
        top: s.top,
        right: s.right,
        bottom: s.bottom,
        left: s.left,
        flex_direction: s.flex_direction,
        flex_wrap: s.flex_wrap,
        align_items: s.align_items,
        align_content: s.align_content,
        justify_content: s.justify_content,
        gap: s.gap,
        column_gap: s.column_gap,
        row_gap: s.row_gap,
        flex_grow: s.flex_grow,
        flex_shrink: s.flex_shrink,
        flex_basis: s.flex_basis,
        align_self: s.align_self,
        padding: s.padding,
        margin: s.margin,
        background: s.background,
        opacity: s.opacity,
        border_widths: s.border_widths,
        border_color: s.border_color,
        corner_radii: s.corner_radii,
        box_shadows: s.box_shadows@,
        text_size: s.text_size,
        text_color: s.text_color,
        font_weight: s.font_weight,
        font_style: s.font_style,
        font_family: match s.font_family { Some(f) => Some(f@), None => None },
        text_align: s.text_align,
        line_height: s.line_height,
        letter_spacing: s.letter_spacing,
        white_space: s.white_space,
        text_overflow: s.text_overflow,
        text_decoration: s.text_decoration,
        overflow_x: s.overflow_x,
        overflow_y: s.overflow_y,
        cursor: s.cursor,
        z_index: s.z_index,
        pointer_events: s.pointer_events,
    }
}

/// The style with nothing set.
pub open spec fn no_style() -> StyleV {
    StyleV {
        display: None,
        position: None,
        visibility: None,
        width: None,
        height: None,
        min_width: None,
        min_height: None,
        max_width: None,
        max_height: None,
        top: None,
        right: None,
        bottom: None,
        left: None,
        flex_direction: None,
        flex_wrap: None,
        align_items: None,
        align_content: None,
        justify_content: None,
        gap: None,
        column_gap: None,
        row_gap: None,
        flex_grow: None,
        flex_shrink: None,
        flex_basis: None,
        align_self: None,
        padding: None,
        margin: None,
        background: None,
        opacity: None,
        border_widths: None,
        border_color: None,
        corner_radii: None,
        box_shadows: Seq::empty(),
        text_size: None,
        text_color: None,
        font_weight: None,
        font_style: None,
        font_family: None,
        text_align: None,
        line_height: None,
        letter_spacing: None,
        white_space: None,
        text_overflow: None,
        text_decoration: None,
        overflow_x: None,
        overflow_y: None,
        cursor: None,
        z_index: None,
        pointer_events: None,
    }
}

/// An empty style has no value set.
pub proof fn lemma_empty_style_v(s: Style)
    requires
        is_empty_style(s),
    ensures
        style_v(s) == no_style(),
{
    assert(style_v(s).box_shadows =~= no_style().box_shadows);
    assert(style_v(s) =~= no_style());
}

/// A node of an element tree as a value.
pub enum Shape {
    /// A container: id, focus handle, style, events, tooltip, children.
    Node(Option<Seq<char>>, Option<u32>, StyleV, EventFlags, Option<Seq<char>>, Seq<Shape>),
    /// A text and its style.
    Text(Seq<char>, StyleV),
    /// An input: id, value, placeholder, whether disabled, style.
    Input(Seq<char>, Seq<char>, Option<Seq<char>>, bool, StyleV),
    /// An image, icon or list, which the panels do not use.
    Other(AnyNode),
}

/// The shape of a node.
pub open spec fn shape(n: AnyNode) -> Shape
    decreases n,
{
    match n {
        AnyNode::Div(d) => Shape::Node(opt_text(d.id), d.focus_handle_id, style_v(d.style), d.events, opt_text(d.tooltip), shapes(d.children@)),
        AnyNode::Text(t, s) => Shape::Text(t@, style_v(s)),
        AnyNode::Input(id, value, placeholder, disabled, s) => Shape::Input(id@, value@, opt_text(placeholder), disabled, style_v(s)),
        _ => Shape::Other(n),
    }
}

/// The shapes of a list of nodes.
pub open spec fn shapes(s: Seq<AnyNode>) -> Seq<Shape>
    decreases s,
{
    if s.len() == 0 {
        Seq::empty()
    } else {
        shapes(s.drop_last()).push(shape(s.last()))
    }
}

/// The shape of a container.
#[verifier::opaque]
pub open spec fn div_shape(d: Div) -> Shape {
    shape(AnyNode::Div(d))
}

/// The shape of a container with no id, focus handle or tooltip.
pub open spec fn plain(style: StyleV, children: Seq<Shape>) -> Shape {
    Shape::Node(None, None, style, spec_empty_events(), None, children)
}

/// The shape of a container with an id that reports clicks.
pub open spec fn clickable(id: Seq<char>, style: StyleV, children: Seq<Shape>) -> Shape {
    Shape::Node(Some(id), None, style, EventFlags { on_click: true, ..spec_empty_events() }, None, children)
}

/// The style of a shape (nothing set for an image, icon or list).
pub open spec fn shape_style(s: Shape) -> StyleV {
    match s {
        Shape::Node(_, _, st, _, _, _) => st,
        Shape::Text(_, st) => st,
        Shape::Input(_, _, _, _, st) => st,
        Shape::Other(_) => no_style(),
    }
}

/// A container's shape with another style.
pub open spec fn restyle(s: Shape, st: StyleV) -> Shape {
    match s {
        Shape::Node(i, f, _, e, t, c) => Shape::Node(i, f, st, e, t, c),
        _ => s,
    }
}

/// A container's shape with an id.
pub open spec fn with_id(s: Shape, id: Seq<char>) -> Shape {
    match s {
        Shape::Node(_, f, st, e, t, c) => Shape::Node(Some(id), f, st, e, t, c),
        _ => s,
    }
}

/// A container's shape that also reports clicks.
pub open spec fn clicked(s: Shape) -> Shape {
    match s {
        Shape::Node(i, f, st, e, t, c) => Shape::Node(i, f, st, EventFlags { on_click: true, ..e }, t, c),
        _ => s,
    }
}

/// A container's shape with one more child.
pub open spec fn push_shape(s: Shape, child: Shape) -> Shape {
    match s {
        Shape::Node(i, f, st, e, t, c) => Shape::Node(i, f, st, e, t, c.push(child)),
        _ => s,
    }
}

/// A container's shape with more children.
pub open spec fn push_shapes(s: Shape, children: Seq<Shape>) -> Shape {
    match s {
        Shape::Node(i, f, st, e, t, c) => Shape::Node(i, f, st, e, t, c + children),
        _ => s,
    }
}

/// Every container's shape is a container.
pub proof fn lemma_div_shape_is_node(d: Div)
    ensures
        div_shape(d) is Node,
{
    reveal(div_shape);
}

/// The children of a container's shape.
pub open spec fn children_of(s: Shape) -> Seq<Shape> {
    match s {
        Shape::Node(_, _, _, _, _, c) => c,
        _ => Seq::empty(),
    }
}

/// The style of `h_flex()`.
pub open spec fn row_style() -> StyleV {
    StyleV { display: Some(DisplayType::Flex), flex_direction: Some(FlexDirection::Row), ..no_style() }
}

/// The style of `v_flex()`.
pub open spec fn column_style() -> StyleV {
    StyleV { display: Some(DisplayType::Flex), flex_direction: Some(FlexDirection::Column), ..no_style() }
}

/// The style after `.bg(..)`.
pub open spec fn sv_bg(s: StyleV, color: Color) -> StyleV {
    StyleV { background: Some(Background::Color(color)), ..s }
}

/// The style after `.bold(..)`.
pub open spec fn sv_bold(s: StyleV) -> StyleV {
    StyleV { font_weight: Some(FontWeight::Bold), ..s }
}

/// The style after `.border_1(..)`.
pub open spec fn sv_border_1(s: StyleV) -> StyleV {
    StyleV { border_widths: Some(spec_abs_edges_all(AbsoluteLength::Px(F32_1))), ..s }
}

/// The style after `.border_color(..)`.
pub open spec fn sv_border_color(s: StyleV, color: Color) -> StyleV {
    StyleV { border_color: Some(color), ..s }
}

/// The style after `.color(..)`.
pub open spec fn sv_color(s: StyleV, color: Color) -> StyleV {
    StyleV { text_color: Some(color), ..s }
}

/// The style after `.cursor_pointer(..)`.
pub open spec fn sv_cursor_pointer(s: StyleV) -> StyleV {
    StyleV { cursor: Some(CursorStyle::Pointer), ..s }
}

/// The style after `.flex_1(..)`.
pub open spec fn sv_flex_1(s: StyleV) -> StyleV {
    StyleV { flex_grow: Some(F32_1), flex_shrink: Some(F32_1), flex_basis: Some(Length::Relative(F32_0)), ..s }
}

/// The style after `.gap_x(..)`.
pub open spec fn sv_gap_x(s: StyleV, v: DefiniteLength) -> StyleV {
    StyleV { column_gap: Some(v), ..s }
}

/// The style after `.gap_y(..)`.
pub open spec fn sv_gap_y(s: StyleV, v: DefiniteLength) -> StyleV {
    StyleV { row_gap: Some(v), ..s }
}

/// The style after `.h(..)`.
pub open spec fn sv_h(s: StyleV, v: Length) -> StyleV {
    StyleV { height: Some(v), ..s }
}

/// The style after `.italic(..)`.
pub open spec fn sv_italic(s: StyleV) -> StyleV {
    StyleV { font_style: Some(FontStyle::Italic), ..s }
}

/// The style after `.items_center(..)`.
pub open spec fn sv_items_center(s: StyleV) -> StyleV {
    StyleV { align_items: Some(AlignItems::Center), ..s }
}

/// The style after `.justify_between(..)`.
pub open spec fn sv_justify_between(s: StyleV) -> StyleV {
    StyleV { justify_content: Some(JustifyContent::SpaceBetween), ..s }
}

/// The style after `.justify_center(..)`.
pub open spec fn sv_justify_center(s: StyleV) -> StyleV {
    StyleV { justify_content: Some(JustifyContent::Center), ..s }
}

/// The style after `.justify_end(..)`.
pub open spec fn sv_justify_end(s: StyleV) -> StyleV {
    StyleV { justify_content: Some(JustifyContent::End), ..s }
}

/// The style after `.min_w(..)`.
pub open spec fn sv_min_w(s: StyleV, v: DefiniteLength) -> StyleV {
    StyleV { min_width: Some(v), ..s }
}

/// The style after `.muted(..)`.
pub open spec fn sv_muted(s: StyleV) -> StyleV {
    StyleV { text_color: Some(Color::TextMuted), ..s }
}

/// The style after `.overflow_x_hidden(..)`.
pub open spec fn sv_overflow_x_hidden(s: StyleV) -> StyleV {
    StyleV { overflow_x: Some(OverflowType::Hidden), ..s }
}

/// The style after `.overflow_y_scroll(..)`.
pub open spec fn sv_overflow_y_scroll(s: StyleV) -> StyleV {
    StyleV { overflow_y: Some(OverflowType::Scroll), ..s }
}

/// The style after `.p_2(..)`.
pub open spec fn sv_p_2(s: StyleV) -> StyleV {
    StyleV { padding: Some(spec_edges_all(Length::Rems(F32_0_5))), ..s }
}

/// The style after `.p_3(..)`.
pub open spec fn sv_p_3(s: StyleV) -> StyleV {
    StyleV { padding: Some(spec_edges_all(Length::Rems(F32_0_75))), ..s }
}

/// The style after `.px(..)`.
pub open spec fn sv_px(s: StyleV, v: Length) -> StyleV {
    StyleV { padding: Some(EdgesLength { left: v, right: v, ..spec_edges_or_zero(s.padding) }), ..s }
}

/// The style after `.px_2(..)`.
pub open spec fn sv_px_2(s: StyleV) -> StyleV {
    StyleV { padding: Some(EdgesLength { left: Length::Rems(F32_0_5), right: Length::Rems(F32_0_5), ..spec_edges_or_zero(s.padding) }), ..s }
}

/// The style after `.px_3(..)`.
pub open spec fn sv_px_3(s: StyleV) -> StyleV {
    StyleV { padding: Some(EdgesLength { left: Length::Rems(F32_0_75), right: Length::Rems(F32_0_75), ..spec_edges_or_zero(s.padding) }), ..s }
}

/// The style after `.py(..)`.
pub open spec fn sv_py(s: StyleV, v: Length) -> StyleV {
    StyleV { padding: Some(EdgesLength { top: v, bottom: v, ..spec_edges_or_zero(s.padding) }), ..s }
}

/// The style after `.py_1(..)`.
pub open spec fn sv_py_1(s: StyleV) -> StyleV {
    StyleV { padding: Some(EdgesLength { top: Length::Rems(F32_0_25), bottom: Length::Rems(F32_0_25), ..spec_edges_or_zero(s.padding) }), ..s }
}

/// The style after `.py_2(..)`.
pub open spec fn sv_py_2(s: StyleV) -> StyleV {
    StyleV { padding: Some(EdgesLength { top: Length::Rems(F32_0_5), bottom: Length::Rems(F32_0_5), ..spec_edges_or_zero(s.padding) }), ..s }
}

/// The style after `.py_3(..)`.
pub open spec fn sv_py_3(s: StyleV) -> StyleV {
    StyleV { padding: Some(EdgesLength { top: Length::Rems(F32_0_75), bottom: Length::Rems(F32_0_75), ..spec_edges_or_zero(s.padding) }), ..s }
}

/// The style after `.rounded_full(..)`.
pub open spec fn sv_rounded_full(s: StyleV) -> StyleV {
    StyleV { corner_radii: Some(spec_corners_all(AbsoluteLength::Px(F32_9999))), ..s }
}

/// The style after `.rounded_md(..)`.
pub open spec fn sv_rounded_md(s: StyleV) -> StyleV {
    StyleV { corner_radii: Some(spec_corners_all(AbsoluteLength::Px(F32_6))), ..s }
}

/// The style after `.rounded_sm(..)`.
pub open spec fn sv_rounded_sm(s: StyleV) -> StyleV {
    StyleV { corner_radii: Some(spec_corners_all(AbsoluteLength::Px(F32_2))), ..s }
}

/// The style after `.single_line(..)`.
pub open spec fn sv_single_line(s: StyleV) -> StyleV {
    StyleV { white_space: Some(WhiteSpace::Nowrap), text_overflow: Some(TextOverflow::Ellipsis), ..s }
}

/// The style after `.size_full(..)`.
pub open spec fn sv_size_full(s: StyleV) -> StyleV {
    StyleV { width: Some(Length::Relative(F32_1)), height: Some(Length::Relative(F32_1)), ..s }
}

/// The style after `.text_color(..)`.
pub open spec fn sv_text_color(s: StyleV, color: Color) -> StyleV {
    StyleV { text_color: Some(color), ..s }
}

/// The style after `.text_sm(..)`.
pub open spec fn sv_text_sm(s: StyleV) -> StyleV {
    StyleV { text_size: Some(AbsoluteLength::Rems(F32_0_875)), ..s }
}

/// The style after `.text_xs(..)`.
pub open spec fn sv_text_xs(s: StyleV) -> StyleV {
    StyleV { text_size: Some(AbsoluteLength::Rems(F32_0_75)), ..s }
}

/// The style after `.w(..)`.
pub open spec fn sv_w(s: StyleV, v: Length) -> StyleV {
    StyleV { width: Some(v), ..s }
}

/// The style after `.w_full(..)`.
pub open spec fn sv_w_full(s: StyleV) -> StyleV {
    StyleV { width: Some(Length::Relative(F32_1)), ..s }
}

} // verus!
