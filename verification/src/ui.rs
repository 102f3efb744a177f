//! Element builders for extension panels. They mirror the host's element
//! API; [`crate::flatten::render_tree`] turns a built tree into the wire format.
use vstd::prelude::*;
use crate::elements::{
    abs_edges_all, corners_all, edges_all, empty_events, empty_style, is_empty_style,
    spec_abs_edges_all, spec_corners_all, spec_edges_all, spec_empty_events, AbsoluteLength,
    AlignItems, Background, BoxShadow, Color, CursorStyle, DefiniteLength, DisplayType, EdgesLength,
    EventFlags, F32Bits, FlexDirection, FlexWrap, FontStyle, FontWeight, IconSource,
    JustifyContent, Length, OverflowType, PositionType, Style, TextAlign, TextDecoration,
    TextOverflow, VisibilityType, WhiteSpace, F32_0, F32_0_125, F32_0_25, F32_0_375, F32_0_5,
    F32_0_75, F32_0_875, F32_1, F32_1_125, F32_1_25, F32_1_5, F32_2, F32_6, F32_8, F32_12,
    F32_9999,
};
use crate::events::{HandlerKind, HandlerRegistry};
use crate::shape::{restyle, shape_style, column_style, div_shape, lemma_empty_style_v, no_style, plain, row_style, shapes, style_v, Shape};

verus! {

/// Any builder node before flattening.
pub enum AnyNode {
    Div(Div),
    Text(String, Style),
    Img(Option<String>, String, Style, EventFlags),
    Svg(IconSource, Option<Color>, Style),
    Input(String, String, Option<String>, bool, Style),
    UniformList(String, u32, F32Bits, Style, bool),
}

/// Anything that can become a child node.
pub trait IntoAnyNode: Sized {
    /// `node` is what `self` becomes as a child.
    spec fn becomes(self, node: AnyNode) -> bool;

    fn into_any_node(self) -> (r: AnyNode)
        ensures
            self.becomes(r),
    ;
}

/// A container element.
pub struct Div {
    pub id: Option<String>,
    pub focus_handle_id: Option<u32>,
    pub style: Style,
    pub events: EventFlags,
    pub tooltip: Option<String>,
    pub children: Vec<AnyNode>,
}

/// A div as `div()` returns it: no id, no focus handle, no tooltip, no
/// children, empty style and no events.
pub open spec fn is_fresh_div(d: Div) -> bool {
    &&& d.id is None
    &&& d.focus_handle_id is None
    &&& is_empty_style(d.style)
    &&& d.events == spec_empty_events()
    &&& d.tooltip is None
    &&& d.children@.len() == 0
}

/// Asking a container for clicks changes its shape only in that.
pub proof fn lemma_clicked_shape(d: Div)
    ensures
        div_shape(Div { events: EventFlags { on_click: true, ..d.events }, ..d }) == crate::shape::clicked(div_shape(d)),
{
    reveal(div_shape);
}

/// Create a new block-level div.
pub fn div() -> (r: Div)
    ensures
        is_fresh_div(r),
        div_shape(r) == plain(no_style(), seq![]),
{
    proof {
        reveal(div_shape);
    }
    let r = Div {
        id: None,
        focus_handle_id: None,
        style: empty_style(),
        events: empty_events(),
        tooltip: None,
        children: Vec::new(),
    };
    proof {
        lemma_empty_style_v(r.style);
        assert(shapes(r.children@) =~= Seq::<Shape>::empty());
    }
    r
}

/// Flex column.
pub fn v_flex() -> (r: Div)
    ensures
        r.id is None && r.focus_handle_id is None && r.tooltip is None,
        r.children@.len() == 0,
        r.events == spec_empty_events(),
        is_empty_style(Style { display: None, flex_direction: None, ..r.style }),
        r.style.display == Some(DisplayType::Flex),
        r.style.flex_direction == Some(FlexDirection::Column),
        div_shape(r) == plain(column_style(), seq![]),
{
    proof {
        reveal(div_shape);
    }
    let r = div().flex().flex_col();
    proof {
        lemma_empty_style_v(Style { display: None, flex_direction: None, ..r.style });
        assert(style_v(r.style) =~= column_style());
        assert(shapes(r.children@) =~= Seq::<Shape>::empty());
    }
    r
}

/// Flex row.
pub fn h_flex() -> (r: Div)
    ensures
        r.id is None && r.focus_handle_id is None && r.tooltip is None,
        r.children@.len() == 0,
        r.events == spec_empty_events(),
        is_empty_style(Style { display: None, flex_direction: None, ..r.style }),
        r.style.display == Some(DisplayType::Flex),
        r.style.flex_direction == Some(FlexDirection::Row),
        div_shape(r) == plain(row_style(), seq![]),
{
    proof {
        reveal(div_shape);
    }
    let r = div().flex().flex_row();
    proof {
        lemma_empty_style_v(Style { display: None, flex_direction: None, ..r.style });
        assert(style_v(r.style) =~= row_style());
        assert(shapes(r.children@) =~= Seq::<Shape>::empty());
    }
    r
}

impl IntoAnyNode for Div {
    open spec fn becomes(self, node: AnyNode) -> bool {
        node == AnyNode::Div(self)
    }

    fn into_any_node(self) -> (r: AnyNode) {
        AnyNode::Div(self)
    }
}

/// The padding (or margin) that a one-sided setter starts from: the current
/// edges, or zero pixels on every side when none are set.
pub open spec fn spec_edges_or_zero(e: Option<EdgesLength>) -> EdgesLength {
    match e {
        Some(e) => e,
        None => spec_edges_all(Length::Px(F32_0)),
    }
}

impl Div {
    pub fn id(self, id: String) -> (r: Self)
        ensures
            r == (Div { id: Some(id), ..self }),
            div_shape(r) == crate::shape::with_id(div_shape(self), id@),
    {
        proof {
            reveal(div_shape);
        }
        let mut s = self;
        s.id = Some(id);
        s
    }

    /// Make this element focusable with the host-allocated focus handle
    /// `handle_id`.
    pub fn focusable(self, handle_id: u32) -> (r: Self)
        ensures
            r == (Div { focus_handle_id: Some(handle_id), ..self }),
    {
        let mut s = self;
        s.focus_handle_id = Some(handle_id);
        s
    }

    pub fn tooltip(self, text: String) -> (r: Self)
        ensures
            r == (Div { tooltip: Some(text), ..self }),
    {
        let mut s = self;
        s.tooltip = Some(text);
        s
    }

    /// Append one child.
    pub fn child<T: IntoAnyNode>(self, child: T) -> (r: Self)
        ensures
            r.id == self.id && r.focus_handle_id == self.focus_handle_id && r.style == self.style,
            r.events == self.events && r.tooltip == self.tooltip,
            r.children@.len() == self.children@.len() + 1,
            r.children@.take(self.children@.len() as int) == self.children@,
            child.becomes(r.children@.last()),
    {
        let mut s = self;
        let node = child.into_any_node();
        s.children.push(node);
        s
    }

    /// Append several children, in order.
    pub fn children<T: IntoAnyNode>(self, items: Vec<T>) -> (r: Self)
        ensures
            r.id == self.id && r.focus_handle_id == self.focus_handle_id && r.style == self.style,
            r.events == self.events && r.tooltip == self.tooltip,
            r.children@.len() == self.children@.len() + items@.len(),
            r.children@.take(self.children@.len() as int) == self.children@,
            forall|i: int|
                0 <= i < items@.len() ==> #[trigger] items@[i].becomes(r.children@[self.children@.len() + i]),
    {
        let mut s = self;
        let ghost start = s.children@.len();
        let ghost orig = items@;
        let n = items.len();
        let mut rest = items;
        let mut k: usize = 0;
        while rest.len() > 0
            invariant
                k <= orig.len(),
                n == orig.len(),
                rest@ == orig.skip(k as int),
                s.id == self.id && s.focus_handle_id == self.focus_handle_id && s.style == self.style,
                s.events == self.events && s.tooltip == self.tooltip,
                s.children@.len() == start + k,
                start == self.children@.len(),
                s.children@.take(start as int) == self.children@,
                forall|i: int| 0 <= i < k ==> #[trigger] orig[i].becomes(s.children@[start + i]),
            decreases rest@.len(),
        {
            let item = rest.remove(0);
            let node = item.into_any_node();
            let ghost before = s.children@;
            s.children.push(node);
            proof {
                assert(s.children@.take(start as int) =~= before.take(start as int));
                assert forall|i: int| 0 <= i < k + 1 implies #[trigger] orig[i].becomes(s.children@[start + i]) by {
                    if i < k {
                        assert(s.children@[start + i] == before[start + i]);
                    }
                }
                assert(orig.skip(k + 1) =~= orig.skip(k as int).drop_first());
            }
            k = k + 1;
        }
        s
    }

    /// Apply `f` when `condition` holds.
    pub fn when<F: FnOnce(Self) -> Self>(self, condition: bool, f: F) -> (r: Self)
        requires
            condition ==> f.requires((self,)),
        ensures
            condition ==> f.ensures((self,), r),
            !condition ==> r == self,
    {
        if condition {
            f(self)
        } else {
            self
        }
    }

    /// Apply `f` to the value of `option` when there is one.
    pub fn when_some<T, F: FnOnce(Self, T) -> Self>(self, option: Option<T>, f: F) -> (r: Self)
        requires
            option matches Some(v) ==> f.requires((self, v)),
        ensures
            option matches Some(v) ==> f.ensures((self, v), r),
            option is None ==> r == self,
    {
        match option {
            Some(v) => f(self, v),
            None => self,
        }
    }

    /// Ask the host to report clicks, and register `f` for them under this
    /// element's id; without an id, `f` is not registered.
    pub fn on_click<H>(self, f: H, handlers: &mut HandlerRegistry<H>) -> (r: Self)
        ensures
            r == (Div { events: EventFlags { on_click: true, ..self.events }, ..self }),
            div_shape(r) == crate::shape::clicked(div_shape(self)),
            self.id matches Some(id) ==> final(handlers)@ == old(handlers)@.push((id@, HandlerKind::Click, f)),
            self.id is None ==> final(handlers)@ == old(handlers)@,
    {
        proof {
            reveal(div_shape);
        }
        proof {
            lemma_clicked_shape(self);
        }
        let mut s = self;
        s.events.on_click = true;
        match &s.id {
            Some(id) => handlers.register_handler(id.clone(), HandlerKind::Click, f),
            None => {},
        }
        s
    }

    /// Ask the host to report double clicks, and register `f` for them under this
    /// element's id; without an id, `f` is not registered.
    pub fn on_double_click<H>(self, f: H, handlers: &mut HandlerRegistry<H>) -> (r: Self)
        ensures
            r == (Div { events: EventFlags { on_double_click: true, ..self.events }, ..self }),
            self.id matches Some(id) ==> final(handlers)@ == old(handlers)@.push((id@, HandlerKind::DoubleClick, f)),
            self.id is None ==> final(handlers)@ == old(handlers)@,
    {
        let mut s = self;
        s.events.on_double_click = true;
        match &s.id {
            Some(id) => handlers.register_handler(id.clone(), HandlerKind::DoubleClick, f),
            None => {},
        }
        s
    }

    /// Ask the host to report right clicks, and register `f` for them under this
    /// element's id; without an id, `f` is not registered.
    pub fn on_right_click<H>(self, f: H, handlers: &mut HandlerRegistry<H>) -> (r: Self)
        ensures
            r == (Div { events: EventFlags { on_right_click: true, ..self.events }, ..self }),
            self.id matches Some(id) ==> final(handlers)@ == old(handlers)@.push((id@, HandlerKind::RightClick, f)),
            self.id is None ==> final(handlers)@ == old(handlers)@,
    {
        let mut s = self;
        s.events.on_right_click = true;
        match &s.id {
            Some(id) => handlers.register_handler(id.clone(), HandlerKind::RightClick, f),
            None => {},
        }
        s
    }

    /// Ask the host to report the pointer entering or leaving, and register `f` for them under this
    /// element's id; without an id, `f` is not registered.
    pub fn on_hover<H>(self, f: H, handlers: &mut HandlerRegistry<H>) -> (r: Self)
        ensures
            r == (Div { events: EventFlags { on_hover: true, ..self.events }, ..self }),
            self.id matches Some(id) ==> final(handlers)@ == old(handlers)@.push((id@, HandlerKind::Hover, f)),
            self.id is None ==> final(handlers)@ == old(handlers)@,
    {
        let mut s = self;
        s.events.on_hover = true;
        match &s.id {
            Some(id) => handlers.register_handler(id.clone(), HandlerKind::Hover, f),
            None => {},
        }
        s
    }

    /// Ask the host to report scrolling, and register `f` for them under this
    /// element's id; without an id, `f` is not registered.
    pub fn on_scroll_wheel<H>(self, f: H, handlers: &mut HandlerRegistry<H>) -> (r: Self)
        ensures
            r == (Div { events: EventFlags { on_scroll_wheel: true, ..self.events }, ..self }),
            self.id matches Some(id) ==> final(handlers)@ == old(handlers)@.push((id@, HandlerKind::ScrollWheel, f)),
            self.id is None ==> final(handlers)@ == old(handlers)@,
    {
        let mut s = self;
        s.events.on_scroll_wheel = true;
        match &s.id {
            Some(id) => handlers.register_handler(id.clone(), HandlerKind::ScrollWheel, f),
            None => {},
        }
        s
    }

    /// Ask the host to report key presses, and register `f` for them under this
    /// element's id; without an id, `f` is not registered.
    pub fn on_key_down<H>(self, f: H, handlers: &mut HandlerRegistry<H>) -> (r: Self)
        ensures
            r == (Div { events: EventFlags { on_key_down: true, ..self.events }, ..self }),
            self.id matches Some(id) ==> final(handlers)@ == old(handlers)@.push((id@, HandlerKind::KeyDown, f)),
            self.id is None ==> final(handlers)@ == old(handlers)@,
    {
        let mut s = self;
        s.events.on_key_down = true;
        match &s.id {
            Some(id) => handlers.register_handler(id.clone(), HandlerKind::KeyDown, f),
            None => {},
        }
        s
    }
    pub fn flex(self) -> (r: Self)
        ensures
            r == (Div { style: Style { display: Some(DisplayType::Flex), ..self.style }, ..self }),
    {
        let mut s = self;
        s.style.display = Some(DisplayType::Flex);
        s
    }

    pub fn block(self) -> (r: Self)
        ensures
            r == (Div { style: Style { display: Some(DisplayType::Block), ..self.style }, ..self }),
    {
        let mut s = self;
        s.style.display = Some(DisplayType::Block);
        s
    }

    pub fn flex_col(self) -> (r: Self)
        ensures
            r == (Div { style: Style { flex_direction: Some(FlexDirection::Column), ..self.style }, ..self }),
    {
        let mut s = self;
        s.style.flex_direction = Some(FlexDirection::Column);
        s
    }

    pub fn flex_row(self) -> (r: Self)
        ensures
            r == (Div { style: Style { flex_direction: Some(FlexDirection::Row), ..self.style }, ..self }),
    {
        let mut s = self;
        s.style.flex_direction = Some(FlexDirection::Row);
        s
    }

    pub fn flex_col_reverse(self) -> (r: Self)
        ensures
            r == (Div { style: Style { flex_direction: Some(FlexDirection::ColumnReverse), ..self.style }, ..self }),
    {
        let mut s = self;
        s.style.flex_direction = Some(FlexDirection::ColumnReverse);
        s
    }

    pub fn flex_row_reverse(self) -> (r: Self)
        ensures
            r == (Div { style: Style { flex_direction: Some(FlexDirection::RowReverse), ..self.style }, ..self }),
    {
        let mut s = self;
        s.style.flex_direction = Some(FlexDirection::RowReverse);
        s
    }

    pub fn flex_wrap(self) -> (r: Self)
        ensures
            r == (Div { style: Style { flex_wrap: Some(FlexWrap::Wrap), ..self.style }, ..self }),
    {
        let mut s = self;
        s.style.flex_wrap = Some(FlexWrap::Wrap);
        s
    }

    pub fn flex_1(self) -> (r: Self)
        ensures
            r == (Div { style: Style { flex_grow: Some(F32_1), flex_shrink: Some(F32_1), flex_basis: Some(Length::Relative(F32_0)), ..self.style }, ..self }),
            div_shape(r) == restyle(div_shape(self), crate::shape::sv_flex_1(shape_style(div_shape(self)))),
    {
        proof {
            reveal(div_shape);
        }
        let mut s = self;
        s.style.flex_grow = Some(F32_1);
        s.style.flex_shrink = Some(F32_1);
        s.style.flex_basis = Some(Length::Relative(F32_0));
        s
    }

    pub fn flex_grow(self) -> (r: Self)
        ensures
            r == (Div { style: Style { flex_grow: Some(F32_1), ..self.style }, ..self }),
    {
        let mut s = self;
        s.style.flex_grow = Some(F32_1);
        s
    }

    pub fn flex_shrink(self) -> (r: Self)
        ensures
            r == (Div { style: Style { flex_shrink: Some(F32_1), ..self.style }, ..self }),
    {
        let mut s = self;
        s.style.flex_shrink = Some(F32_1);
        s
    }

    pub fn flex_none(self) -> (r: Self)
        ensures
            r == (Div { style: Style { flex_grow: Some(F32_0), flex_shrink: Some(F32_0), ..self.style }, ..self }),
    {
        let mut s = self;
        s.style.flex_grow = Some(F32_0);
        s.style.flex_shrink = Some(F32_0);
        s
    }

    pub fn relative(self) -> (r: Self)
        ensures
            r == (Div { style: Style { position: Some(PositionType::Relative), ..self.style }, ..self }),
    {
        let mut s = self;
        s.style.position = Some(PositionType::Relative);
        s
    }

    pub fn absolute(self) -> (r: Self)
        ensures
            r == (Div { style: Style { position: Some(PositionType::Absolute), ..self.style }, ..self }),
    {
        let mut s = self;
        s.style.position = Some(PositionType::Absolute);
        s
    }

    pub fn inset_0(self) -> (r: Self)
        ensures
            r == (Div { style: Style { top: Some(Length::Px(F32_0)), right: Some(Length::Px(F32_0)), bottom: Some(Length::Px(F32_0)), left: Some(Length::Px(F32_0)), ..self.style }, ..self }),
    {
        let mut s = self;
        s.style.top = Some(Length::Px(F32_0));
        s.style.right = Some(Length::Px(F32_0));
        s.style.bottom = Some(Length::Px(F32_0));
        s.style.left = Some(Length::Px(F32_0));
        s
    }

    pub fn top(self, v: Length) -> (r: Self)
        ensures
            r == (Div { style: Style { top: Some(v), ..self.style }, ..self }),
    {
        let mut s = self;
        s.style.top = Some(v);
        s
    }

    pub fn bottom(self, v: Length) -> (r: Self)
        ensures
            r == (Div { style: Style { bottom: Some(v), ..self.style }, ..self }),
    {
        let mut s = self;
        s.style.bottom = Some(v);
        s
    }

    pub fn left(self, v: Length) -> (r: Self)
        ensures
            r == (Div { style: Style { left: Some(v), ..self.style }, ..self }),
    {
        let mut s = self;
        s.style.left = Some(v);
        s
    }

    pub fn right(self, v: Length) -> (r: Self)
        ensures
            r == (Div { style: Style { right: Some(v), ..self.style }, ..self }),
    {
        let mut s = self;
        s.style.right = Some(v);
        s
    }

    pub fn items_start(self) -> (r: Self)
        ensures
            r == (Div { style: Style { align_items: Some(AlignItems::Start), ..self.style }, ..self }),
    {
        let mut s = self;
        s.style.align_items = Some(AlignItems::Start);
        s
    }

    pub fn items_end(self) -> (r: Self)
        ensures
            r == (Div { style: Style { align_items: Some(AlignItems::End), ..self.style }, ..self }),
    {
        let mut s = self;
        s.style.align_items = Some(AlignItems::End);
        s
    }

    pub fn items_center(self) -> (r: Self)
        ensures
            r == (Div { style: Style { align_items: Some(AlignItems::Center), ..self.style }, ..self }),
            div_shape(r) == restyle(div_shape(self), crate::shape::sv_items_center(shape_style(div_shape(self)))),
    {
        proof {
            reveal(div_shape);
        }
        let mut s = self;
        s.style.align_items = Some(AlignItems::Center);
        s
    }

    pub fn items_baseline(self) -> (r: Self)
        ensures
            r == (Div { style: Style { align_items: Some(AlignItems::Baseline), ..self.style }, ..self }),
    {
        let mut s = self;
        s.style.align_items = Some(AlignItems::Baseline);
        s
    }

    pub fn items_stretch(self) -> (r: Self)
        ensures
            r == (Div { style: Style { align_items: Some(AlignItems::Stretch), ..self.style }, ..self }),
    {
        let mut s = self;
        s.style.align_items = Some(AlignItems::Stretch);
        s
    }

    pub fn justify_start(self) -> (r: Self)
        ensures
            r == (Div { style: Style { justify_content: Some(JustifyContent::Start), ..self.style }, ..self }),
    {
        let mut s = self;
        s.style.justify_content = Some(JustifyContent::Start);
        s
    }

    pub fn justify_end(self) -> (r: Self)
        ensures
            r == (Div { style: Style { justify_content: Some(JustifyContent::End), ..self.style }, ..self }),
            div_shape(r) == restyle(div_shape(self), crate::shape::sv_justify_end(shape_style(div_shape(self)))),
    {
        proof {
            reveal(div_shape);
        }
        let mut s = self;
        s.style.justify_content = Some(JustifyContent::End);
        s
    }

    pub fn justify_center(self) -> (r: Self)
        ensures
            r == (Div { style: Style { justify_content: Some(JustifyContent::Center), ..self.style }, ..self }),
            div_shape(r) == restyle(div_shape(self), crate::shape::sv_justify_center(shape_style(div_shape(self)))),
    {
        proof {
            reveal(div_shape);
        }
        let mut s = self;
        s.style.justify_content = Some(JustifyContent::Center);
        s
    }

    pub fn justify_between(self) -> (r: Self)
        ensures
            r == (Div { style: Style { justify_content: Some(JustifyContent::SpaceBetween), ..self.style }, ..self }),
            div_shape(r) == restyle(div_shape(self), crate::shape::sv_justify_between(shape_style(div_shape(self)))),
    {
        proof {
            reveal(div_shape);
        }
        let mut s = self;
        s.style.justify_content = Some(JustifyContent::SpaceBetween);
        s
    }

    pub fn justify_around(self) -> (r: Self)
        ensures
            r == (Div { style: Style { justify_content: Some(JustifyContent::SpaceAround), ..self.style }, ..self }),
    {
        let mut s = self;
        s.style.justify_content = Some(JustifyContent::SpaceAround);
        s
    }

    pub fn w(self, v: Length) -> (r: Self)
        ensures
            r == (Div { style: Style { width: Some(v), ..self.style }, ..self }),
            div_shape(r) == restyle(div_shape(self), crate::shape::sv_w(shape_style(div_shape(self)), v)),
    {
        proof {
            reveal(div_shape);
        }
        let mut s = self;
        s.style.width = Some(v);
        s
    }

    pub fn h(self, v: Length) -> (r: Self)
        ensures
            r == (Div { style: Style { height: Some(v), ..self.style }, ..self }),
            div_shape(r) == restyle(div_shape(self), crate::shape::sv_h(shape_style(div_shape(self)), v)),
    {
        proof {
            reveal(div_shape);
        }
        let mut s = self;
        s.style.height = Some(v);
        s
    }

    pub fn size(self, v: Length) -> (r: Self)
        ensures
            r == (Div { style: Style { width: Some(v), height: Some(v), ..self.style }, ..self }),
    {
        let mut s = self;
        s.style.width = Some(v);
        s.style.height = Some(v);
        s
    }

    pub fn w_full(self) -> (r: Self)
        ensures
            r == (Div { style: Style { width: Some(Length::Relative(F32_1)), ..self.style }, ..self }),
            div_shape(r) == restyle(div_shape(self), crate::shape::sv_w_full(shape_style(div_shape(self)))),
    {
        proof {
            reveal(div_shape);
        }
        let mut s = self;
        s.style.width = Some(Length::Relative(F32_1));
        s
    }

    pub fn h_full(self) -> (r: Self)
        ensures
            r == (Div { style: Style { height: Some(Length::Relative(F32_1)), ..self.style }, ..self }),
    {
        let mut s = self;
        s.style.height = Some(Length::Relative(F32_1));
        s
    }

    pub fn size_full(self) -> (r: Self)
        ensures
            r == (Div { style: Style { width: Some(Length::Relative(F32_1)), height: Some(Length::Relative(F32_1)), ..self.style }, ..self }),
            div_shape(r) == restyle(div_shape(self), crate::shape::sv_size_full(shape_style(div_shape(self)))),
    {
        proof {
            reveal(div_shape);
        }
        let mut s = self;
        s.style.width = Some(Length::Relative(F32_1));
        s.style.height = Some(Length::Relative(F32_1));
        s
    }

    pub fn min_w(self, v: DefiniteLength) -> (r: Self)
        ensures
            r == (Div { style: Style { min_width: Some(v), ..self.style }, ..self }),
            div_shape(r) == restyle(div_shape(self), crate::shape::sv_min_w(shape_style(div_shape(self)), v)),
    {
        proof {
            reveal(div_shape);
        }
        let mut s = self;
        s.style.min_width = Some(v);
        s
    }

    pub fn min_h(self, v: DefiniteLength) -> (r: Self)
        ensures
            r == (Div { style: Style { min_height: Some(v), ..self.style }, ..self }),
    {
        let mut s = self;
        s.style.min_height = Some(v);
        s
    }

    pub fn max_w(self, v: DefiniteLength) -> (r: Self)
        ensures
            r == (Div { style: Style { max_width: Some(v), ..self.style }, ..self }),
    {
        let mut s = self;
        s.style.max_width = Some(v);
        s
    }

    pub fn max_h(self, v: DefiniteLength) -> (r: Self)
        ensures
            r == (Div { style: Style { max_height: Some(v), ..self.style }, ..self }),
    {
        let mut s = self;
        s.style.max_height = Some(v);
        s
    }

    pub fn gap(self, v: DefiniteLength) -> (r: Self)
        ensures
            r == (Div { style: Style { gap: Some(v), ..self.style }, ..self }),
    {
        let mut s = self;
        s.style.gap = Some(v);
        s
    }

    pub fn gap_x(self, v: DefiniteLength) -> (r: Self)
        ensures
            r == (Div { style: Style { column_gap: Some(v), ..self.style }, ..self }),
            div_shape(r) == restyle(div_shape(self), crate::shape::sv_gap_x(shape_style(div_shape(self)), v)),
    {
        proof {
            reveal(div_shape);
        }
        let mut s = self;
        s.style.column_gap = Some(v);
        s
    }

    pub fn gap_y(self, v: DefiniteLength) -> (r: Self)
        ensures
            r == (Div { style: Style { row_gap: Some(v), ..self.style }, ..self }),
            div_shape(r) == restyle(div_shape(self), crate::shape::sv_gap_y(shape_style(div_shape(self)), v)),
    {
        proof {
            reveal(div_shape);
        }
        let mut s = self;
        s.style.row_gap = Some(v);
        s
    }

    pub fn gap_0(self) -> (r: Self)
        ensures
            r == (Div { style: Style { gap: Some(DefiniteLength::Px(F32_0)), ..self.style }, ..self }),
    {
        self.gap(DefiniteLength::Px(F32_0))
    }

    pub fn gap_0_5(self) -> (r: Self)
        ensures
            r == (Div { style: Style { gap: Some(DefiniteLength::Rems(F32_0_125)), ..self.style }, ..self }),
    {
        self.gap(DefiniteLength::Rems(F32_0_125))
    }

    pub fn gap_1(self) -> (r: Self)
        ensures
            r == (Div { style: Style { gap: Some(DefiniteLength::Rems(F32_0_25)), ..self.style }, ..self }),
    {
        self.gap(DefiniteLength::Rems(F32_0_25))
    }

    pub fn gap_1_5(self) -> (r: Self)
        ensures
            r == (Div { style: Style { gap: Some(DefiniteLength::Rems(F32_0_375)), ..self.style }, ..self }),
    {
        self.gap(DefiniteLength::Rems(F32_0_375))
    }

    pub fn gap_2(self) -> (r: Self)
        ensures
            r == (Div { style: Style { gap: Some(DefiniteLength::Rems(F32_0_5)), ..self.style }, ..self }),
    {
        self.gap(DefiniteLength::Rems(F32_0_5))
    }

    pub fn gap_3(self) -> (r: Self)
        ensures
            r == (Div { style: Style { gap: Some(DefiniteLength::Rems(F32_0_75)), ..self.style }, ..self }),
    {
        self.gap(DefiniteLength::Rems(F32_0_75))
    }

    pub fn gap_4(self) -> (r: Self)
        ensures
            r == (Div { style: Style { gap: Some(DefiniteLength::Rems(F32_1)), ..self.style }, ..self }),
    {
        self.gap(DefiniteLength::Rems(F32_1))
    }

    pub fn gap_5(self) -> (r: Self)
        ensures
            r == (Div { style: Style { gap: Some(DefiniteLength::Rems(F32_1_25)), ..self.style }, ..self }),
    {
        self.gap(DefiniteLength::Rems(F32_1_25))
    }

    pub fn gap_6(self) -> (r: Self)
        ensures
            r == (Div { style: Style { gap: Some(DefiniteLength::Rems(F32_1_5)), ..self.style }, ..self }),
    {
        self.gap(DefiniteLength::Rems(F32_1_5))
    }

    pub fn gap_8(self) -> (r: Self)
        ensures
            r == (Div { style: Style { gap: Some(DefiniteLength::Rems(F32_2)), ..self.style }, ..self }),
    {
        self.gap(DefiniteLength::Rems(F32_2))
    }

    pub fn p(self, v: Length) -> (r: Self)
        ensures
            r == (Div { style: Style { padding: Some(spec_edges_all(v)), ..self.style }, ..self }),
    {
        let mut s = self;
        s.style.padding = Some(edges_all(v));
        s
    }

    pub fn px(self, v: Length) -> (r: Self)
        ensures
            r == (Div { style: Style { padding: Some(EdgesLength { left: v, right: v, ..spec_edges_or_zero(self.style.padding) }), ..self.style }, ..self }),
            div_shape(r) == restyle(div_shape(self), crate::shape::sv_px(shape_style(div_shape(self)), v)),
    {
        proof {
            reveal(div_shape);
        }
        let mut s = self;
        let current = match s.style.padding { Some(e) => e, None => edges_all(Length::Px(F32_0)) };
        s.style.padding = Some(EdgesLength { left: v, right: v, ..current });
        s
    }

    pub fn py(self, v: Length) -> (r: Self)
        ensures
            r == (Div { style: Style { padding: Some(EdgesLength { top: v, bottom: v, ..spec_edges_or_zero(self.style.padding) }), ..self.style }, ..self }),
            div_shape(r) == restyle(div_shape(self), crate::shape::sv_py(shape_style(div_shape(self)), v)),
    {
        proof {
            reveal(div_shape);
        }
        let mut s = self;
        let current = match s.style.padding { Some(e) => e, None => edges_all(Length::Px(F32_0)) };
        s.style.padding = Some(EdgesLength { top: v, bottom: v, ..current });
        s
    }

    pub fn pt(self, v: Length) -> (r: Self)
        ensures
            r == (Div { style: Style { padding: Some(EdgesLength { top: v, ..spec_edges_or_zero(self.style.padding) }), ..self.style }, ..self }),
    {
        let mut s = self;
        let current = match s.style.padding { Some(e) => e, None => edges_all(Length::Px(F32_0)) };
        s.style.padding = Some(EdgesLength { top: v, ..current });
        s
    }

    pub fn pb(self, v: Length) -> (r: Self)
        ensures
            r == (Div { style: Style { padding: Some(EdgesLength { bottom: v, ..spec_edges_or_zero(self.style.padding) }), ..self.style }, ..self }),
    {
        let mut s = self;
        let current = match s.style.padding { Some(e) => e, None => edges_all(Length::Px(F32_0)) };
        s.style.padding = Some(EdgesLength { bottom: v, ..current });
        s
    }

    pub fn pl(self, v: Length) -> (r: Self)
        ensures
            r == (Div { style: Style { padding: Some(EdgesLength { left: v, ..spec_edges_or_zero(self.style.padding) }), ..self.style }, ..self }),
    {
        let mut s = self;
        let current = match s.style.padding { Some(e) => e, None => edges_all(Length::Px(F32_0)) };
        s.style.padding = Some(EdgesLength { left: v, ..current });
        s
    }

    pub fn pr(self, v: Length) -> (r: Self)
        ensures
            r == (Div { style: Style { padding: Some(EdgesLength { right: v, ..spec_edges_or_zero(self.style.padding) }), ..self.style }, ..self }),
    {
        let mut s = self;
        let current = match s.style.padding { Some(e) => e, None => edges_all(Length::Px(F32_0)) };
        s.style.padding = Some(EdgesLength { right: v, ..current });
        s
    }

    pub fn p_0(self) -> (r: Self)
        ensures
            r == (Div { style: Style { padding: Some(spec_edges_all(Length::Px(F32_0))), ..self.style }, ..self }),
    {
        self.p(Length::Px(F32_0))
    }

    pub fn p_0_5(self) -> (r: Self)
        ensures
            r == (Div { style: Style { padding: Some(spec_edges_all(Length::Rems(F32_0_125))), ..self.style }, ..self }),
    {
        self.p(Length::Rems(F32_0_125))
    }

    pub fn p_1(self) -> (r: Self)
        ensures
            r == (Div { style: Style { padding: Some(spec_edges_all(Length::Rems(F32_0_25))), ..self.style }, ..self }),
    {
        self.p(Length::Rems(F32_0_25))
    }

    pub fn p_1_5(self) -> (r: Self)
        ensures
            r == (Div { style: Style { padding: Some(spec_edges_all(Length::Rems(F32_0_375))), ..self.style }, ..self }),
    {
        self.p(Length::Rems(F32_0_375))
    }

    pub fn p_2(self) -> (r: Self)
        ensures
            r == (Div { style: Style { padding: Some(spec_edges_all(Length::Rems(F32_0_5))), ..self.style }, ..self }),
            div_shape(r) == restyle(div_shape(self), crate::shape::sv_p_2(shape_style(div_shape(self)))),
    {
        proof {
            reveal(div_shape);
        }
        self.p(Length::Rems(F32_0_5))
    }

    pub fn p_3(self) -> (r: Self)
        ensures
            r == (Div { style: Style { padding: Some(spec_edges_all(Length::Rems(F32_0_75))), ..self.style }, ..self }),
            div_shape(r) == restyle(div_shape(self), crate::shape::sv_p_3(shape_style(div_shape(self)))),
    {
        proof {
            reveal(div_shape);
        }
        self.p(Length::Rems(F32_0_75))
    }

    pub fn p_4(self) -> (r: Self)
        ensures
            r == (Div { style: Style { padding: Some(spec_edges_all(Length::Rems(F32_1))), ..self.style }, ..self }),
    {
        self.p(Length::Rems(F32_1))
    }

    pub fn p_5(self) -> (r: Self)
        ensures
            r == (Div { style: Style { padding: Some(spec_edges_all(Length::Rems(F32_1_25))), ..self.style }, ..self }),
    {
        self.p(Length::Rems(F32_1_25))
    }

    pub fn p_6(self) -> (r: Self)
        ensures
            r == (Div { style: Style { padding: Some(spec_edges_all(Length::Rems(F32_1_5))), ..self.style }, ..self }),
    {
        self.p(Length::Rems(F32_1_5))
    }

    pub fn p_8(self) -> (r: Self)
        ensures
            r == (Div { style: Style { padding: Some(spec_edges_all(Length::Rems(F32_2))), ..self.style }, ..self }),
    {
        self.p(Length::Rems(F32_2))
    }

    pub fn px_0(self) -> (r: Self)
        ensures
            r == (Div { style: Style { padding: Some(EdgesLength { left: Length::Px(F32_0), right: Length::Px(F32_0), ..spec_edges_or_zero(self.style.padding) }), ..self.style }, ..self }),
    {
        self.px(Length::Px(F32_0))
    }

    pub fn px_0_5(self) -> (r: Self)
        ensures
            r == (Div { style: Style { padding: Some(EdgesLength { left: Length::Rems(F32_0_125), right: Length::Rems(F32_0_125), ..spec_edges_or_zero(self.style.padding) }), ..self.style }, ..self }),
    {
        self.px(Length::Rems(F32_0_125))
    }

    pub fn px_1(self) -> (r: Self)
        ensures
            r == (Div { style: Style { padding: Some(EdgesLength { left: Length::Rems(F32_0_25), right: Length::Rems(F32_0_25), ..spec_edges_or_zero(self.style.padding) }), ..self.style }, ..self }),
    {
        self.px(Length::Rems(F32_0_25))
    }

    pub fn px_2(self) -> (r: Self)
        ensures
            r == (Div { style: Style { padding: Some(EdgesLength { left: Length::Rems(F32_0_5), right: Length::Rems(F32_0_5), ..spec_edges_or_zero(self.style.padding) }), ..self.style }, ..self }),
            div_shape(r) == restyle(div_shape(self), crate::shape::sv_px_2(shape_style(div_shape(self)))),
    {
        proof {
            reveal(div_shape);
        }
        self.px(Length::Rems(F32_0_5))
    }

    pub fn px_3(self) -> (r: Self)
        ensures
            r == (Div { style: Style { padding: Some(EdgesLength { left: Length::Rems(F32_0_75), right: Length::Rems(F32_0_75), ..spec_edges_or_zero(self.style.padding) }), ..self.style }, ..self }),
            div_shape(r) == restyle(div_shape(self), crate::shape::sv_px_3(shape_style(div_shape(self)))),
    {
        proof {
            reveal(div_shape);
        }
        self.px(Length::Rems(F32_0_75))
    }

    pub fn px_4(self) -> (r: Self)
        ensures
            r == (Div { style: Style { padding: Some(EdgesLength { left: Length::Rems(F32_1), right: Length::Rems(F32_1), ..spec_edges_or_zero(self.style.padding) }), ..self.style }, ..self }),
    {
        self.px(Length::Rems(F32_1))
    }

    pub fn px_5(self) -> (r: Self)
        ensures
            r == (Div { style: Style { padding: Some(EdgesLength { left: Length::Rems(F32_1_25), right: Length::Rems(F32_1_25), ..spec_edges_or_zero(self.style.padding) }), ..self.style }, ..self }),
    {
        self.px(Length::Rems(F32_1_25))
    }

    pub fn px_6(self) -> (r: Self)
        ensures
            r == (Div { style: Style { padding: Some(EdgesLength { left: Length::Rems(F32_1_5), right: Length::Rems(F32_1_5), ..spec_edges_or_zero(self.style.padding) }), ..self.style }, ..self }),
    {
        self.px(Length::Rems(F32_1_5))
    }

    pub fn px_8(self) -> (r: Self)
        ensures
            r == (Div { style: Style { padding: Some(EdgesLength { left: Length::Rems(F32_2), right: Length::Rems(F32_2), ..spec_edges_or_zero(self.style.padding) }), ..self.style }, ..self }),
    {
        self.px(Length::Rems(F32_2))
    }

    pub fn py_0(self) -> (r: Self)
        ensures
            r == (Div { style: Style { padding: Some(EdgesLength { top: Length::Px(F32_0), bottom: Length::Px(F32_0), ..spec_edges_or_zero(self.style.padding) }), ..self.style }, ..self }),
    {
        self.py(Length::Px(F32_0))
    }

    pub fn py_0_5(self) -> (r: Self)
        ensures
            r == (Div { style: Style { padding: Some(EdgesLength { top: Length::Rems(F32_0_125), bottom: Length::Rems(F32_0_125), ..spec_edges_or_zero(self.style.padding) }), ..self.style }, ..self }),
    {
        self.py(Length::Rems(F32_0_125))
    }

    pub fn py_1(self) -> (r: Self)
        ensures
            r == (Div { style: Style { padding: Some(EdgesLength { top: Length::Rems(F32_0_25), bottom: Length::Rems(F32_0_25), ..spec_edges_or_zero(self.style.padding) }), ..self.style }, ..self }),
            div_shape(r) == restyle(div_shape(self), crate::shape::sv_py_1(shape_style(div_shape(self)))),
    {
        proof {
            reveal(div_shape);
        }
        self.py(Length::Rems(F32_0_25))
    }

    pub fn py_2(self) -> (r: Self)
        ensures
            r == (Div { style: Style { padding: Some(EdgesLength { top: Length::Rems(F32_0_5), bottom: Length::Rems(F32_0_5), ..spec_edges_or_zero(self.style.padding) }), ..self.style }, ..self }),
            div_shape(r) == restyle(div_shape(self), crate::shape::sv_py_2(shape_style(div_shape(self)))),
    {
        proof {
            reveal(div_shape);
        }
        self.py(Length::Rems(F32_0_5))
    }

    pub fn py_3(self) -> (r: Self)
        ensures
            r == (Div { style: Style { padding: Some(EdgesLength { top: Length::Rems(F32_0_75), bottom: Length::Rems(F32_0_75), ..spec_edges_or_zero(self.style.padding) }), ..self.style }, ..self }),
            div_shape(r) == restyle(div_shape(self), crate::shape::sv_py_3(shape_style(div_shape(self)))),
    {
        proof {
            reveal(div_shape);
        }
        self.py(Length::Rems(F32_0_75))
    }

    pub fn py_4(self) -> (r: Self)
        ensures
            r == (Div { style: Style { padding: Some(EdgesLength { top: Length::Rems(F32_1), bottom: Length::Rems(F32_1), ..spec_edges_or_zero(self.style.padding) }), ..self.style }, ..self }),
    {
        self.py(Length::Rems(F32_1))
    }

    pub fn pt_1(self) -> (r: Self)
        ensures
            r == (Div { style: Style { padding: Some(EdgesLength { top: Length::Rems(F32_0_25), ..spec_edges_or_zero(self.style.padding) }), ..self.style }, ..self }),
    {
        self.pt(Length::Rems(F32_0_25))
    }

    pub fn pt_2(self) -> (r: Self)
        ensures
            r == (Div { style: Style { padding: Some(EdgesLength { top: Length::Rems(F32_0_5), ..spec_edges_or_zero(self.style.padding) }), ..self.style }, ..self }),
    {
        self.pt(Length::Rems(F32_0_5))
    }

    pub fn pt_3(self) -> (r: Self)
        ensures
            r == (Div { style: Style { padding: Some(EdgesLength { top: Length::Rems(F32_0_75), ..spec_edges_or_zero(self.style.padding) }), ..self.style }, ..self }),
    {
        self.pt(Length::Rems(F32_0_75))
    }

    pub fn pt_4(self) -> (r: Self)
        ensures
            r == (Div { style: Style { padding: Some(EdgesLength { top: Length::Rems(F32_1), ..spec_edges_or_zero(self.style.padding) }), ..self.style }, ..self }),
    {
        self.pt(Length::Rems(F32_1))
    }

    pub fn pb_1(self) -> (r: Self)
        ensures
            r == (Div { style: Style { padding: Some(EdgesLength { bottom: Length::Rems(F32_0_25), ..spec_edges_or_zero(self.style.padding) }), ..self.style }, ..self }),
    {
        self.pb(Length::Rems(F32_0_25))
    }

    pub fn pb_2(self) -> (r: Self)
        ensures
            r == (Div { style: Style { padding: Some(EdgesLength { bottom: Length::Rems(F32_0_5), ..spec_edges_or_zero(self.style.padding) }), ..self.style }, ..self }),
    {
        self.pb(Length::Rems(F32_0_5))
    }

    pub fn pb_4(self) -> (r: Self)
        ensures
            r == (Div { style: Style { padding: Some(EdgesLength { bottom: Length::Rems(F32_1), ..spec_edges_or_zero(self.style.padding) }), ..self.style }, ..self }),
    {
        self.pb(Length::Rems(F32_1))
    }

    pub fn pl_1(self) -> (r: Self)
        ensures
            r == (Div { style: Style { padding: Some(EdgesLength { left: Length::Rems(F32_0_25), ..spec_edges_or_zero(self.style.padding) }), ..self.style }, ..self }),
    {
        self.pl(Length::Rems(F32_0_25))
    }

    pub fn pl_2(self) -> (r: Self)
        ensures
            r == (Div { style: Style { padding: Some(EdgesLength { left: Length::Rems(F32_0_5), ..spec_edges_or_zero(self.style.padding) }), ..self.style }, ..self }),
    {
        self.pl(Length::Rems(F32_0_5))
    }

    pub fn pl_4(self) -> (r: Self)
        ensures
            r == (Div { style: Style { padding: Some(EdgesLength { left: Length::Rems(F32_1), ..spec_edges_or_zero(self.style.padding) }), ..self.style }, ..self }),
    {
        self.pl(Length::Rems(F32_1))
    }

    pub fn pr_1(self) -> (r: Self)
        ensures
            r == (Div { style: Style { padding: Some(EdgesLength { right: Length::Rems(F32_0_25), ..spec_edges_or_zero(self.style.padding) }), ..self.style }, ..self }),
    {
        self.pr(Length::Rems(F32_0_25))
    }

    pub fn pr_2(self) -> (r: Self)
        ensures
            r == (Div { style: Style { padding: Some(EdgesLength { right: Length::Rems(F32_0_5), ..spec_edges_or_zero(self.style.padding) }), ..self.style }, ..self }),
    {
        self.pr(Length::Rems(F32_0_5))
    }

    pub fn pr_4(self) -> (r: Self)
        ensures
            r == (Div { style: Style { padding: Some(EdgesLength { right: Length::Rems(F32_1), ..spec_edges_or_zero(self.style.padding) }), ..self.style }, ..self }),
    {
        self.pr(Length::Rems(F32_1))
    }

    pub fn m(self, v: Length) -> (r: Self)
        ensures
            r == (Div { style: Style { margin: Some(spec_edges_all(v)), ..self.style }, ..self }),
    {
        let mut s = self;
        s.style.margin = Some(edges_all(v));
        s
    }

    pub fn mx(self, v: Length) -> (r: Self)
        ensures
            r == (Div { style: Style { margin: Some(EdgesLength { left: v, right: v, ..spec_edges_or_zero(self.style.margin) }), ..self.style }, ..self }),
    {
        let mut s = self;
        let current = match s.style.margin { Some(e) => e, None => edges_all(Length::Px(F32_0)) };
        s.style.margin = Some(EdgesLength { left: v, right: v, ..current });
        s
    }

    pub fn my(self, v: Length) -> (r: Self)
        ensures
            r == (Div { style: Style { margin: Some(EdgesLength { top: v, bottom: v, ..spec_edges_or_zero(self.style.margin) }), ..self.style }, ..self }),
    {
        let mut s = self;
        let current = match s.style.margin { Some(e) => e, None => edges_all(Length::Px(F32_0)) };
        s.style.margin = Some(EdgesLength { top: v, bottom: v, ..current });
        s
    }

    pub fn mt(self, v: Length) -> (r: Self)
        ensures
            r == (Div { style: Style { margin: Some(EdgesLength { top: v, ..spec_edges_or_zero(self.style.margin) }), ..self.style }, ..self }),
    {
        let mut s = self;
        let current = match s.style.margin { Some(e) => e, None => edges_all(Length::Px(F32_0)) };
        s.style.margin = Some(EdgesLength { top: v, ..current });
        s
    }

    pub fn mb(self, v: Length) -> (r: Self)
        ensures
            r == (Div { style: Style { margin: Some(EdgesLength { bottom: v, ..spec_edges_or_zero(self.style.margin) }), ..self.style }, ..self }),
    {
        let mut s = self;
        let current = match s.style.margin { Some(e) => e, None => edges_all(Length::Px(F32_0)) };
        s.style.margin = Some(EdgesLength { bottom: v, ..current });
        s
    }

    pub fn m_0(self) -> (r: Self)
        ensures
            r == (Div { style: Style { margin: Some(spec_edges_all(Length::Px(F32_0))), ..self.style }, ..self }),
    {
        self.m(Length::Px(F32_0))
    }

    pub fn m_1(self) -> (r: Self)
        ensures
            r == (Div { style: Style { margin: Some(spec_edges_all(Length::Rems(F32_0_25))), ..self.style }, ..self }),
    {
        self.m(Length::Rems(F32_0_25))
    }

    pub fn m_2(self) -> (r: Self)
        ensures
            r == (Div { style: Style { margin: Some(spec_edges_all(Length::Rems(F32_0_5))), ..self.style }, ..self }),
    {
        self.m(Length::Rems(F32_0_5))
    }

    pub fn m_4(self) -> (r: Self)
        ensures
            r == (Div { style: Style { margin: Some(spec_edges_all(Length::Rems(F32_1))), ..self.style }, ..self }),
    {
        self.m(Length::Rems(F32_1))
    }

    pub fn mx_auto(self) -> (r: Self)
        ensures
            r == (Div { style: Style { margin: Some(EdgesLength { left: Length::Auto, right: Length::Auto, ..spec_edges_or_zero(self.style.margin) }), ..self.style }, ..self }),
    {
        let mut s = self;
        let current = match s.style.margin { Some(e) => e, None => edges_all(Length::Px(F32_0)) };
        s.style.margin = Some(EdgesLength { left: Length::Auto, right: Length::Auto, ..current });
        s
    }

    pub fn mt_0(self) -> (r: Self)
        ensures
            r == (Div { style: Style { margin: Some(EdgesLength { top: Length::Px(F32_0), ..spec_edges_or_zero(self.style.margin) }), ..self.style }, ..self }),
    {
        self.mt(Length::Px(F32_0))
    }

    pub fn mt_1(self) -> (r: Self)
        ensures
            r == (Div { style: Style { margin: Some(EdgesLength { top: Length::Rems(F32_0_25), ..spec_edges_or_zero(self.style.margin) }), ..self.style }, ..self }),
    {
        self.mt(Length::Rems(F32_0_25))
    }

    pub fn mt_2(self) -> (r: Self)
        ensures
            r == (Div { style: Style { margin: Some(EdgesLength { top: Length::Rems(F32_0_5), ..spec_edges_or_zero(self.style.margin) }), ..self.style }, ..self }),
    {
        self.mt(Length::Rems(F32_0_5))
    }

    pub fn mt_4(self) -> (r: Self)
        ensures
            r == (Div { style: Style { margin: Some(EdgesLength { top: Length::Rems(F32_1), ..spec_edges_or_zero(self.style.margin) }), ..self.style }, ..self }),
    {
        self.mt(Length::Rems(F32_1))
    }

    pub fn mb_1(self) -> (r: Self)
        ensures
            r == (Div { style: Style { margin: Some(EdgesLength { bottom: Length::Rems(F32_0_25), ..spec_edges_or_zero(self.style.margin) }), ..self.style }, ..self }),
    {
        self.mb(Length::Rems(F32_0_25))
    }

    pub fn mb_2(self) -> (r: Self)
        ensures
            r == (Div { style: Style { margin: Some(EdgesLength { bottom: Length::Rems(F32_0_5), ..spec_edges_or_zero(self.style.margin) }), ..self.style }, ..self }),
    {
        self.mb(Length::Rems(F32_0_5))
    }

    pub fn mb_4(self) -> (r: Self)
        ensures
            r == (Div { style: Style { margin: Some(EdgesLength { bottom: Length::Rems(F32_1), ..spec_edges_or_zero(self.style.margin) }), ..self.style }, ..self }),
    {
        self.mb(Length::Rems(F32_1))
    }

    pub fn bg(self, color: Color) -> (r: Self)
        ensures
            r == (Div { style: Style { background: Some(Background::Color(color)), ..self.style }, ..self }),
            div_shape(r) == restyle(div_shape(self), crate::shape::sv_bg(shape_style(div_shape(self)), color)),
    {
        proof {
            reveal(div_shape);
        }
        let mut s = self;
        s.style.background = Some(Background::Color(color));
        s
    }

    pub fn opacity(self, v: F32Bits) -> (r: Self)
        ensures
            r == (Div { style: Style { opacity: Some(v), ..self.style }, ..self }),
    {
        let mut s = self;
        s.style.opacity = Some(v);
        s
    }

    pub fn border(self, v: AbsoluteLength) -> (r: Self)
        ensures
            r == (Div { style: Style { border_widths: Some(spec_abs_edges_all(v)), ..self.style }, ..self }),
    {
        let mut s = self;
        s.style.border_widths = Some(abs_edges_all(v));
        s
    }

    pub fn border_1(self) -> (r: Self)
        ensures
            r == (Div { style: Style { border_widths: Some(spec_abs_edges_all(AbsoluteLength::Px(F32_1))), ..self.style }, ..self }),
            div_shape(r) == restyle(div_shape(self), crate::shape::sv_border_1(shape_style(div_shape(self)))),
    {
        proof {
            reveal(div_shape);
        }
        self.border(AbsoluteLength::Px(F32_1))
    }

    pub fn border_2(self) -> (r: Self)
        ensures
            r == (Div { style: Style { border_widths: Some(spec_abs_edges_all(AbsoluteLength::Px(F32_2))), ..self.style }, ..self }),
    {
        self.border(AbsoluteLength::Px(F32_2))
    }

    pub fn border_color(self, color: Color) -> (r: Self)
        ensures
            r == (Div { style: Style { border_color: Some(color), ..self.style }, ..self }),
            div_shape(r) == restyle(div_shape(self), crate::shape::sv_border_color(shape_style(div_shape(self)), color)),
    {
        proof {
            reveal(div_shape);
        }
        let mut s = self;
        s.style.border_color = Some(color);
        s
    }

    pub fn rounded(self, v: AbsoluteLength) -> (r: Self)
        ensures
            r == (Div { style: Style { corner_radii: Some(spec_corners_all(v)), ..self.style }, ..self }),
    {
        let mut s = self;
        s.style.corner_radii = Some(corners_all(v));
        s
    }

    pub fn rounded_sm(self) -> (r: Self)
        ensures
            r == (Div { style: Style { corner_radii: Some(spec_corners_all(AbsoluteLength::Px(F32_2))), ..self.style }, ..self }),
            div_shape(r) == restyle(div_shape(self), crate::shape::sv_rounded_sm(shape_style(div_shape(self)))),
    {
        proof {
            reveal(div_shape);
        }
        self.rounded(AbsoluteLength::Px(F32_2))
    }

    pub fn rounded_md(self) -> (r: Self)
        ensures
            r == (Div { style: Style { corner_radii: Some(spec_corners_all(AbsoluteLength::Px(F32_6))), ..self.style }, ..self }),
            div_shape(r) == restyle(div_shape(self), crate::shape::sv_rounded_md(shape_style(div_shape(self)))),
    {
        proof {
            reveal(div_shape);
        }
        self.rounded(AbsoluteLength::Px(F32_6))
    }

    pub fn rounded_lg(self) -> (r: Self)
        ensures
            r == (Div { style: Style { corner_radii: Some(spec_corners_all(AbsoluteLength::Px(F32_8))), ..self.style }, ..self }),
    {
        self.rounded(AbsoluteLength::Px(F32_8))
    }

    pub fn rounded_xl(self) -> (r: Self)
        ensures
            r == (Div { style: Style { corner_radii: Some(spec_corners_all(AbsoluteLength::Px(F32_12))), ..self.style }, ..self }),
    {
        self.rounded(AbsoluteLength::Px(F32_12))
    }

    pub fn rounded_full(self) -> (r: Self)
        ensures
            r == (Div { style: Style { corner_radii: Some(spec_corners_all(AbsoluteLength::Px(F32_9999))), ..self.style }, ..self }),
            div_shape(r) == restyle(div_shape(self), crate::shape::sv_rounded_full(shape_style(div_shape(self)))),
    {
        proof {
            reveal(div_shape);
        }
        self.rounded(AbsoluteLength::Px(F32_9999))
    }

    /// Adds a box shadow after those already set.
    pub fn shadow(self, shadow: BoxShadow) -> (r: Self)
        ensures
            r.style.box_shadows@ == self.style.box_shadows@.push(shadow),
            r == (Div { style: Style { box_shadows: r.style.box_shadows, ..self.style }, ..self }),
    {
        let mut s = self;
        s.style.box_shadows.push(shadow);
        s
    }

    pub fn text_color(self, color: Color) -> (r: Self)
        ensures
            r == (Div { style: Style { text_color: Some(color), ..self.style }, ..self }),
            div_shape(r) == restyle(div_shape(self), crate::shape::sv_text_color(shape_style(div_shape(self)), color)),
    {
        proof {
            reveal(div_shape);
        }
        let mut s = self;
        s.style.text_color = Some(color);
        s
    }

    pub fn text_size(self, v: AbsoluteLength) -> (r: Self)
        ensures
            r == (Div { style: Style { text_size: Some(v), ..self.style }, ..self }),
    {
        let mut s = self;
        s.style.text_size = Some(v);
        s
    }

    pub fn text_xs(self) -> (r: Self)
        ensures
            r == (Div { style: Style { text_size: Some(AbsoluteLength::Rems(F32_0_75)), ..self.style }, ..self }),
            div_shape(r) == restyle(div_shape(self), crate::shape::sv_text_xs(shape_style(div_shape(self)))),
    {
        proof {
            reveal(div_shape);
        }
        self.text_size(AbsoluteLength::Rems(F32_0_75))
    }

    pub fn text_sm(self) -> (r: Self)
        ensures
            r == (Div { style: Style { text_size: Some(AbsoluteLength::Rems(F32_0_875)), ..self.style }, ..self }),
            div_shape(r) == restyle(div_shape(self), crate::shape::sv_text_sm(shape_style(div_shape(self)))),
    {
        proof {
            reveal(div_shape);
        }
        self.text_size(AbsoluteLength::Rems(F32_0_875))
    }

    pub fn text_base(self) -> (r: Self)
        ensures
            r == (Div { style: Style { text_size: Some(AbsoluteLength::Rems(F32_1)), ..self.style }, ..self }),
    {
        self.text_size(AbsoluteLength::Rems(F32_1))
    }

    pub fn text_lg(self) -> (r: Self)
        ensures
            r == (Div { style: Style { text_size: Some(AbsoluteLength::Rems(F32_1_125)), ..self.style }, ..self }),
    {
        self.text_size(AbsoluteLength::Rems(F32_1_125))
    }

    pub fn text_xl(self) -> (r: Self)
        ensures
            r == (Div { style: Style { text_size: Some(AbsoluteLength::Rems(F32_1_25)), ..self.style }, ..self }),
    {
        self.text_size(AbsoluteLength::Rems(F32_1_25))
    }

    pub fn text_2xl(self) -> (r: Self)
        ensures
            r == (Div { style: Style { text_size: Some(AbsoluteLength::Rems(F32_1_5)), ..self.style }, ..self }),
    {
        self.text_size(AbsoluteLength::Rems(F32_1_5))
    }

    pub fn font_bold(self) -> (r: Self)
        ensures
            r == (Div { style: Style { font_weight: Some(FontWeight::Bold), ..self.style }, ..self }),
    {
        let mut s = self;
        s.style.font_weight = Some(FontWeight::Bold);
        s
    }

    pub fn font_medium(self) -> (r: Self)
        ensures
            r == (Div { style: Style { font_weight: Some(FontWeight::Medium), ..self.style }, ..self }),
    {
        let mut s = self;
        s.style.font_weight = Some(FontWeight::Medium);
        s
    }

    pub fn font_light(self) -> (r: Self)
        ensures
            r == (Div { style: Style { font_weight: Some(FontWeight::Light), ..self.style }, ..self }),
    {
        let mut s = self;
        s.style.font_weight = Some(FontWeight::Light);
        s
    }

    pub fn italic(self) -> (r: Self)
        ensures
            r == (Div { style: Style { font_style: Some(FontStyle::Italic), ..self.style }, ..self }),
            div_shape(r) == restyle(div_shape(self), crate::shape::sv_italic(shape_style(div_shape(self)))),
    {
        proof {
            reveal(div_shape);
        }
        let mut s = self;
        s.style.font_style = Some(FontStyle::Italic);
        s
    }

    pub fn text_center(self) -> (r: Self)
        ensures
            r == (Div { style: Style { text_align: Some(TextAlign::Center), ..self.style }, ..self }),
    {
        let mut s = self;
        s.style.text_align = Some(TextAlign::Center);
        s
    }

    pub fn text_ellipsis(self) -> (r: Self)
        ensures
            r == (Div { style: Style { text_overflow: Some(TextOverflow::Ellipsis), ..self.style }, ..self }),
    {
        let mut s = self;
        s.style.text_overflow = Some(TextOverflow::Ellipsis);
        s
    }

    pub fn whitespace_nowrap(self) -> (r: Self)
        ensures
            r == (Div { style: Style { white_space: Some(WhiteSpace::Nowrap), ..self.style }, ..self }),
    {
        let mut s = self;
        s.style.white_space = Some(WhiteSpace::Nowrap);
        s
    }

    pub fn underline(self) -> (r: Self)
        ensures
            r == (Div { style: Style { text_decoration: Some(TextDecoration::Underline), ..self.style }, ..self }),
    {
        let mut s = self;
        s.style.text_decoration = Some(TextDecoration::Underline);
        s
    }

    pub fn line_through(self) -> (r: Self)
        ensures
            r == (Div { style: Style { text_decoration: Some(TextDecoration::Strikethrough), ..self.style }, ..self }),
    {
        let mut s = self;
        s.style.text_decoration = Some(TextDecoration::Strikethrough);
        s
    }

    pub fn overflow_hidden(self) -> (r: Self)
        ensures
            r == (Div { style: Style { overflow_x: Some(OverflowType::Hidden), overflow_y: Some(OverflowType::Hidden), ..self.style }, ..self }),
    {
        let mut s = self;
        s.style.overflow_x = Some(OverflowType::Hidden);
        s.style.overflow_y = Some(OverflowType::Hidden);
        s
    }

    pub fn overflow_x_hidden(self) -> (r: Self)
        ensures
            r == (Div { style: Style { overflow_x: Some(OverflowType::Hidden), ..self.style }, ..self }),
            div_shape(r) == restyle(div_shape(self), crate::shape::sv_overflow_x_hidden(shape_style(div_shape(self)))),
    {
        proof {
            reveal(div_shape);
        }
        let mut s = self;
        s.style.overflow_x = Some(OverflowType::Hidden);
        s
    }

    pub fn overflow_y_hidden(self) -> (r: Self)
        ensures
            r == (Div { style: Style { overflow_y: Some(OverflowType::Hidden), ..self.style }, ..self }),
    {
        let mut s = self;
        s.style.overflow_y = Some(OverflowType::Hidden);
        s
    }

    pub fn overflow_scroll(self) -> (r: Self)
        ensures
            r == (Div { style: Style { overflow_x: Some(OverflowType::Scroll), overflow_y: Some(OverflowType::Scroll), ..self.style }, ..self }),
    {
        let mut s = self;
        s.style.overflow_x = Some(OverflowType::Scroll);
        s.style.overflow_y = Some(OverflowType::Scroll);
        s
    }

    pub fn overflow_y_scroll(self) -> (r: Self)
        ensures
            r == (Div { style: Style { overflow_y: Some(OverflowType::Scroll), ..self.style }, ..self }),
            div_shape(r) == restyle(div_shape(self), crate::shape::sv_overflow_y_scroll(shape_style(div_shape(self)))),
    {
        proof {
            reveal(div_shape);
        }
        let mut s = self;
        s.style.overflow_y = Some(OverflowType::Scroll);
        s
    }

    pub fn cursor_pointer(self) -> (r: Self)
        ensures
            r == (Div { style: Style { cursor: Some(CursorStyle::Pointer), ..self.style }, ..self }),
            div_shape(r) == restyle(div_shape(self), crate::shape::sv_cursor_pointer(shape_style(div_shape(self)))),
    {
        proof {
            reveal(div_shape);
        }
        let mut s = self;
        s.style.cursor = Some(CursorStyle::Pointer);
        s
    }

    pub fn cursor_default(self) -> (r: Self)
        ensures
            r == (Div { style: Style { cursor: Some(CursorStyle::Default), ..self.style }, ..self }),
    {
        let mut s = self;
        s.style.cursor = Some(CursorStyle::Default);
        s
    }

    pub fn cursor_text(self) -> (r: Self)
        ensures
            r == (Div { style: Style { cursor: Some(CursorStyle::Text), ..self.style }, ..self }),
    {
        let mut s = self;
        s.style.cursor = Some(CursorStyle::Text);
        s
    }

    pub fn z_index(self, z: u32) -> (r: Self)
        ensures
            r == (Div { style: Style { z_index: Some(z), ..self.style }, ..self }),
    {
        let mut s = self;
        s.style.z_index = Some(z);
        s
    }

    pub fn pointer_events_none(self) -> (r: Self)
        ensures
            r == (Div { style: Style { pointer_events: Some(false), ..self.style }, ..self }),
    {
        let mut s = self;
        s.style.pointer_events = Some(false);
        s
    }

    pub fn invisible(self) -> (r: Self)
        ensures
            r == (Div { style: Style { visibility: Some(VisibilityType::Hidden), ..self.style }, ..self }),
    {
        let mut s = self;
        s.style.visibility = Some(VisibilityType::Hidden);
        s
    }

}

/// A styled text node.
pub struct Label {
    pub text: String,
    pub style: Style,
}

impl Label {
    pub fn new(text: String) -> (r: Self)
        ensures
            r.text == text,
            is_empty_style(r.style),
            style_v(r.style) == no_style(),
    {
        let r = Label { text, style: empty_style() };
        proof {
            lemma_empty_style_v(r.style);
        }
        r
    }

    pub fn color(self, color: Color) -> (r: Self)
        ensures
            r == (Label { style: Style { text_color: Some(color), ..self.style }, ..self }),
            style_v(r.style) == crate::shape::sv_color(style_v(self.style), color),
    {
        let mut s = self;
        s.style.text_color = Some(color);
        s
    }

    pub fn size(self, v: AbsoluteLength) -> (r: Self)
        ensures
            r == (Label { style: Style { text_size: Some(v), ..self.style }, ..self }),
    {
        let mut s = self;
        s.style.text_size = Some(v);
        s
    }

    pub fn text_sm(self) -> (r: Self)
        ensures
            r == (Label { style: Style { text_size: Some(AbsoluteLength::Rems(F32_0_875)), ..self.style }, ..self }),
            style_v(r.style) == crate::shape::sv_text_sm(style_v(self.style)),
    {
        let mut s = self;
        s.style.text_size = Some(AbsoluteLength::Rems(F32_0_875));
        s
    }

    pub fn text_xs(self) -> (r: Self)
        ensures
            r == (Label { style: Style { text_size: Some(AbsoluteLength::Rems(F32_0_75)), ..self.style }, ..self }),
            style_v(r.style) == crate::shape::sv_text_xs(style_v(self.style)),
    {
        let mut s = self;
        s.style.text_size = Some(AbsoluteLength::Rems(F32_0_75));
        s
    }

    pub fn bold(self) -> (r: Self)
        ensures
            r == (Label { style: Style { font_weight: Some(FontWeight::Bold), ..self.style }, ..self }),
            style_v(r.style) == crate::shape::sv_bold(style_v(self.style)),
    {
        let mut s = self;
        s.style.font_weight = Some(FontWeight::Bold);
        s
    }

    pub fn italic(self) -> (r: Self)
        ensures
            r == (Label { style: Style { font_style: Some(FontStyle::Italic), ..self.style }, ..self }),
            style_v(r.style) == crate::shape::sv_italic(style_v(self.style)),
    {
        let mut s = self;
        s.style.font_style = Some(FontStyle::Italic);
        s
    }

    pub fn muted(self) -> (r: Self)
        ensures
            r == (Label { style: Style { text_color: Some(Color::TextMuted), ..self.style }, ..self }),
            style_v(r.style) == crate::shape::sv_muted(style_v(self.style)),
    {
        let mut s = self;
        s.style.text_color = Some(Color::TextMuted);
        s
    }

    pub fn single_line(self) -> (r: Self)
        ensures
            r == (Label { style: Style { white_space: Some(WhiteSpace::Nowrap), text_overflow: Some(TextOverflow::Ellipsis), ..self.style }, ..self }),
            style_v(r.style) == crate::shape::sv_single_line(style_v(self.style)),
    {
        let mut s = self;
        s.style.white_space = Some(WhiteSpace::Nowrap);
        s.style.text_overflow = Some(TextOverflow::Ellipsis);
        s
    }

}

impl IntoAnyNode for Label {
    open spec fn becomes(self, node: AnyNode) -> bool {
        node == AnyNode::Text(self.text, self.style)
    }

    fn into_any_node(self) -> (r: AnyNode) {
        AnyNode::Text(self.text, self.style)
    }
}

/// An SVG icon node.
pub struct Icon {
    pub source: IconSource,
    pub color: Option<Color>,
    pub style: Style,
}

impl Icon {
    /// Named icon from the host's built-in icon set (e.g. `"check"`).
    pub fn named(name: String) -> (r: Self)
        ensures
            r.source == IconSource::Named(name),
            r.color is None,
            is_empty_style(r.style),
    {
        Icon { source: IconSource::Named(name), color: None, style: empty_style() }
    }

    /// Custom SVG from the extension's asset bundle.
    pub fn path(path: String) -> (r: Self)
        ensures
            r.source == IconSource::Path(path),
            r.color is None,
            is_empty_style(r.style),
    {
        Icon { source: IconSource::Path(path), color: None, style: empty_style() }
    }

    pub fn color(self, color: Color) -> (r: Self)
        ensures
            r == (Icon { color: Some(color), ..self }),
    {
        let mut s = self;
        s.color = Some(color);
        s
    }

    pub fn size(self, v: Length) -> (r: Self)
        ensures
            r == (Icon { style: Style { width: Some(v), height: Some(v), ..self.style }, ..self }),
    {
        let mut s = self;
        s.style.width = Some(v);
        s.style.height = Some(v);
        s
    }
}

impl IntoAnyNode for Icon {
    open spec fn becomes(self, node: AnyNode) -> bool {
        node == AnyNode::Svg(self.source, self.color, self.style)
    }

    fn into_any_node(self) -> (r: AnyNode) {
        AnyNode::Svg(self.source, self.color, self.style)
    }
}

/// A virtualized list; the host asks for the visible items one by one.
pub struct UniformList {
    pub id: String,
    pub item_count: u32,
    pub item_height: F32Bits,
    pub style: Style,
    pub fill_width: bool,
}

impl UniformList {
    pub fn new(id: String, item_count: u32, item_height: F32Bits) -> (r: Self)
        ensures
            r.id == id && r.item_count == item_count && r.item_height == item_height,
            is_empty_style(r.style),
            r.fill_width,
    {
        UniformList { id, item_count, item_height, style: empty_style(), fill_width: true }
    }

    pub fn fill_width(self, v: bool) -> (r: Self)
        ensures
            r == (UniformList { fill_width: v, ..self }),
    {
        let mut s = self;
        s.fill_width = v;
        s
    }

    pub fn h_full(self) -> (r: Self)
        ensures
            r == (UniformList { style: Style { height: Some(Length::Relative(F32_1)), ..self.style }, ..self }),
    {
        let mut s = self;
        s.style.height = Some(Length::Relative(F32_1));
        s
    }

    pub fn w_full(self) -> (r: Self)
        ensures
            r == (UniformList { style: Style { width: Some(Length::Relative(F32_1)), ..self.style }, ..self }),
    {
        let mut s = self;
        s.style.width = Some(Length::Relative(F32_1));
        s
    }
}

impl IntoAnyNode for UniformList {
    open spec fn becomes(self, node: AnyNode) -> bool {
        node == AnyNode::UniformList(self.id, self.item_count, self.item_height, self.style, self.fill_width)
    }

    fn into_any_node(self) -> (r: AnyNode) {
        AnyNode::UniformList(self.id, self.item_count, self.item_height, self.style, self.fill_width)
    }
}

/// A text input field.
pub struct Input {
    pub id: String,
    pub value: String,
    pub placeholder: Option<String>,
    pub disabled: bool,
    pub style: Style,
}

impl Input {
    pub fn new(id: String, value: String) -> (r: Self)
        ensures
            r.id == id && r.value == value,
            r.placeholder is None,
            !r.disabled,
            is_empty_style(r.style),
            style_v(r.style) == no_style(),
    {
        let r = Input { id, value, placeholder: None, disabled: false, style: empty_style() };
        proof {
            lemma_empty_style_v(r.style);
        }
        r
    }

    pub fn placeholder(self, text: String) -> (r: Self)
        ensures
            r == (Input { placeholder: Some(text), ..self }),
    {
        let mut s = self;
        s.placeholder = Some(text);
        s
    }

    pub fn disabled(self, disabled: bool) -> (r: Self)
        ensures
            r == (Input { disabled, ..self }),
    {
        let mut s = self;
        s.disabled = disabled;
        s
    }

    /// Register `f` to run when the input's text changes.
    pub fn on_input<H>(self, f: H, handlers: &mut HandlerRegistry<H>) -> (r: Self)
        ensures
            r == self,
            final(handlers)@ == old(handlers)@.push((self.id@, HandlerKind::InputChanged, f)),
    {
        handlers.register_handler(self.id.clone(), HandlerKind::InputChanged, f);
        self
    }

    pub fn w_full(self) -> (r: Self)
        ensures
            r == (Input { style: Style { width: Some(Length::Relative(F32_1)), ..self.style }, ..self }),
            style_v(r.style) == crate::shape::sv_w_full(style_v(self.style)),
    {
        let mut s = self;
        s.style.width = Some(Length::Relative(F32_1));
        s
    }

    pub fn px(self, v: Length) -> (r: Self)
        ensures
            r == (Input { style: Style { padding: Some(EdgesLength { left: v, right: v, ..spec_edges_or_zero(self.style.padding) }), ..self.style }, ..self }),
    {
        let mut s = self;
        let current = match s.style.padding { Some(e) => e, None => edges_all(Length::Px(F32_0)) };
        s.style.padding = Some(EdgesLength { left: v, right: v, ..current });
        s
    }

    pub fn py(self, v: Length) -> (r: Self)
        ensures
            r == (Input { style: Style { padding: Some(EdgesLength { top: v, bottom: v, ..spec_edges_or_zero(self.style.padding) }), ..self.style }, ..self }),
    {
        let mut s = self;
        let current = match s.style.padding { Some(e) => e, None => edges_all(Length::Px(F32_0)) };
        s.style.padding = Some(EdgesLength { top: v, bottom: v, ..current });
        s
    }

    pub fn p_2(self) -> (r: Self)
        ensures
            r == (Input { style: Style { padding: Some(spec_edges_all(Length::Rems(F32_0_5))), ..self.style }, ..self }),
            style_v(r.style) == crate::shape::sv_p_2(style_v(self.style)),
    {
        let mut s = self;
        s.style.padding = Some(edges_all(Length::Rems(F32_0_5)));
        s
    }

    pub fn rounded_md(self) -> (r: Self)
        ensures
            r == (Input { style: Style { corner_radii: Some(spec_corners_all(AbsoluteLength::Px(F32_6))), ..self.style }, ..self }),
            style_v(r.style) == crate::shape::sv_rounded_md(style_v(self.style)),
    {
        let mut s = self;
        s.style.corner_radii = Some(corners_all(AbsoluteLength::Px(F32_6)));
        s
    }

    pub fn border_1(self) -> (r: Self)
        ensures
            r == (Input { style: Style { border_widths: Some(spec_abs_edges_all(AbsoluteLength::Px(F32_1))), ..self.style }, ..self }),
            style_v(r.style) == crate::shape::sv_border_1(style_v(self.style)),
    {
        let mut s = self;
        s.style.border_widths = Some(abs_edges_all(AbsoluteLength::Px(F32_1)));
        s
    }

    pub fn border_color(self, color: Color) -> (r: Self)
        ensures
            r == (Input { style: Style { border_color: Some(color), ..self.style }, ..self }),
            style_v(r.style) == crate::shape::sv_border_color(style_v(self.style), color),
    {
        let mut s = self;
        s.style.border_color = Some(color);
        s
    }

    pub fn bg(self, color: Color) -> (r: Self)
        ensures
            r == (Input { style: Style { background: Some(Background::Color(color)), ..self.style }, ..self }),
            style_v(r.style) == crate::shape::sv_bg(style_v(self.style), color),
    {
        let mut s = self;
        s.style.background = Some(Background::Color(color));
        s
    }

    pub fn text_sm(self) -> (r: Self)
        ensures
            r == (Input { style: Style { text_size: Some(AbsoluteLength::Rems(F32_0_875)), ..self.style }, ..self }),
            style_v(r.style) == crate::shape::sv_text_sm(style_v(self.style)),
    {
        let mut s = self;
        s.style.text_size = Some(AbsoluteLength::Rems(F32_0_875));
        s
    }

}

impl IntoAnyNode for Input {
    open spec fn becomes(self, node: AnyNode) -> bool {
        node == AnyNode::Input(self.id, self.value, self.placeholder, self.disabled, self.style)
    }

    fn into_any_node(self) -> (r: AnyNode) {
        AnyNode::Input(self.id, self.value, self.placeholder, self.disabled, self.style)
    }
}

impl IntoAnyNode for String {
    open spec fn becomes(self, node: AnyNode) -> bool {
        node matches AnyNode::Text(t, st) && t == self && is_empty_style(st)
    }

    fn into_any_node(self) -> (r: AnyNode) {
        AnyNode::Text(self, empty_style())
    }
}

impl<'a> IntoAnyNode for &'a str {
    open spec fn becomes(self, node: AnyNode) -> bool {
        node matches AnyNode::Text(t, st) && t@ == self@ && is_empty_style(st)
    }

    fn into_any_node(self) -> (r: AnyNode) {
        AnyNode::Text(self.to_owned(), empty_style())
    }
}

/// Auto sizing.
pub fn auto_length() -> (r: Length)
    ensures
        r == Length::Auto,
{
    Length::Auto
}

pub fn color_text() -> (r: Color)
    ensures
        r == Color::Text,
{
    Color::Text
}

pub fn color_muted() -> (r: Color)
    ensures
        r == Color::TextMuted,
{
    Color::TextMuted
}

pub fn color_accent() -> (r: Color)
    ensures
        r == Color::Accent,
{
    Color::Accent
}

pub fn color_border() -> (r: Color)
    ensures
        r == Color::Border,
{
    Color::Border
}

pub fn color_surface() -> (r: Color)
    ensures
        r == Color::SurfaceBackground,
{
    Color::SurfaceBackground
}

pub fn color_panel() -> (r: Color)
    ensures
        r == Color::PanelBackground,
{
    Color::PanelBackground
}

pub fn color_background() -> (r: Color)
    ensures
        r == Color::Background,
{
    Color::Background
}

pub fn color_error() -> (r: Color)
    ensures
        r == Color::StatusError,
{
    Color::StatusError
}

pub fn color_success() -> (r: Color)
    ensures
        r == Color::StatusSuccess,
{
    Color::StatusSuccess
}

pub fn color_warning() -> (r: Color)
    ensures
        r == Color::StatusWarning,
{
    Color::StatusWarning
}

pub fn color_transparent() -> (r: Color)
    ensures
        r == Color::Transparent,
{
    Color::Transparent
}
} // verus!
