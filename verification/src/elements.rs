//! The element vocabulary shared by extensions and the host: lengths, colors,
//! the style record, event flags and the flat node list of a rendered tree.
//!
//! Every `f32` quantity of the wire format is carried as its IEEE-754
//! single-precision bit pattern (`F32Bits`): the library only copies these
//! values, it never computes with them.
use vstd::prelude::*;

verus! {

/// IEEE-754 single-precision bit pattern of a wire-format `f32`.
pub type F32Bits = u32;

/// Bit pattern of `0.0f32`.
pub const F32_0: F32Bits = 0x0000_0000;
/// Bit pattern of `0.125f32`.
pub const F32_0_125: F32Bits = 0x3E00_0000;
/// Bit pattern of `0.25f32`.
pub const F32_0_25: F32Bits = 0x3E80_0000;
/// Bit pattern of `0.375f32`.
pub const F32_0_375: F32Bits = 0x3EC0_0000;
/// Bit pattern of `0.5f32`.
pub const F32_0_5: F32Bits = 0x3F00_0000;
/// Bit pattern of `0.75f32`.
pub const F32_0_75: F32Bits = 0x3F40_0000;
/// Bit pattern of `0.875f32`.
pub const F32_0_875: F32Bits = 0x3F60_0000;
/// Bit pattern of `1.0f32`.
pub const F32_1: F32Bits = 0x3F80_0000;
/// Bit pattern of `1.125f32`.
pub const F32_1_125: F32Bits = 0x3F90_0000;
/// Bit pattern of `1.25f32`.
pub const F32_1_25: F32Bits = 0x3FA0_0000;
/// Bit pattern of `1.5f32`.
pub const F32_1_5: F32Bits = 0x3FC0_0000;
/// Bit pattern of `2.0f32`.
pub const F32_2: F32Bits = 0x4000_0000;
/// Bit pattern of `3.0f32`.
pub const F32_3: F32Bits = 0x4040_0000;
/// Bit pattern of `4.0f32`.
pub const F32_4: F32Bits = 0x4080_0000;
/// Bit pattern of `6.0f32`.
pub const F32_6: F32Bits = 0x40C0_0000;
/// Bit pattern of `8.0f32`.
pub const F32_8: F32Bits = 0x4100_0000;
/// Bit pattern of `12.0f32`.
pub const F32_12: F32Bits = 0x4140_0000;
/// Bit pattern of `9999.0f32`.
pub const F32_9999: F32Bits = 0x461C_3C00;

/// A length along one axis.
#[derive(Clone, Copy, PartialEq, Eq, Structural, Debug)]
pub enum Length {
    Px(F32Bits),
    Rems(F32Bits),
    Relative(F32Bits),
    Auto,
    Fr(F32Bits),
}

/// A length that is never `auto`.
#[derive(Clone, Copy, PartialEq, Eq, Structural, Debug)]
pub enum DefiniteLength {
    Px(F32Bits),
    Rems(F32Bits),
    Relative(F32Bits),
}

/// An absolute length (pixels or rems).
#[derive(Clone, Copy, PartialEq, Eq, Structural, Debug)]
pub enum AbsoluteLength {
    Px(F32Bits),
    Rems(F32Bits),
}

/// One length per edge.
#[derive(Clone, Copy, PartialEq, Eq, Structural, Debug)]
pub struct EdgesLength {
    pub top: Length,
    pub right: Length,
    pub bottom: Length,
    pub left: Length,
}

/// One absolute length per edge.
#[derive(Clone, Copy, PartialEq, Eq, Structural, Debug)]
pub struct EdgesAbsolute {
    pub top: AbsoluteLength,
    pub right: AbsoluteLength,
    pub bottom: AbsoluteLength,
    pub left: AbsoluteLength,
}

/// One absolute radius per corner.
#[derive(Clone, Copy, PartialEq, Eq, Structural, Debug)]
pub struct CornersAbsolute {
    pub top_left: AbsoluteLength,
    pub top_right: AbsoluteLength,
    pub bottom_right: AbsoluteLength,
    pub bottom_left: AbsoluteLength,
}

/// A point with `f32` coordinates.
#[derive(Clone, Copy, PartialEq, Eq, Structural, Debug)]
pub struct PointF32 {
    pub x: F32Bits,
    pub y: F32Bits,
}

/// Hue, saturation, lightness and alpha, each in `0.0..=1.0`.
#[derive(Clone, Copy, PartialEq, Eq, Structural, Debug)]
pub struct Hsla {
    pub h: F32Bits,
    pub s: F32Bits,
    pub l: F32Bits,
    pub a: F32Bits,
}

/// A raw color, or a semantic color that the host resolves from its theme.
#[derive(Clone, Copy, PartialEq, Eq, Structural, Debug)]
pub enum Color {
    Hsla(Hsla),
    Text,
    TextMuted,
    TextDisabled,
    TextAccent,
    TextPlaceholder,
    Background,
    SurfaceBackground,
    ElevatedSurfaceBackground,
    PanelBackground,
    Border,
    BorderMuted,
    BorderFocused,
    BorderTransparent,
    ElementBackground,
    ElementHover,
    ElementSelected,
    ElementActive,
    ElementDisabled,
    GhostElementBackground,
    GhostElementHover,
    GhostElementSelected,
    StatusError,
    StatusWarning,
    StatusSuccess,
    StatusInfo,
    EditorBackground,
    Accent,
    Transparent,
}

/// A background fill.
#[derive(Clone, Copy, PartialEq, Eq, Structural, Debug)]
pub enum Background {
    Color(Color),
}

/// A drop shadow.
#[derive(Clone, Copy, PartialEq, Eq, Structural, Debug)]
pub struct BoxShadow {
    pub color: Hsla,
    pub offset: PointF32,
    pub blur: F32Bits,
    pub spread: F32Bits,
}

#[derive(Clone, Copy, PartialEq, Eq, Structural, Debug)]
pub enum DisplayType {
    Block,
    Flex,
}

#[derive(Clone, Copy, PartialEq, Eq, Structural, Debug)]
pub enum PositionType {
    Relative,
    Absolute,
}

#[derive(Clone, Copy, PartialEq, Eq, Structural, Debug)]
pub enum FlexDirection {
    Row,
    Column,
    RowReverse,
    ColumnReverse,
}

#[derive(Clone, Copy, PartialEq, Eq, Structural, Debug)]
pub enum FlexWrap {
    NoWrap,
    Wrap,
    WrapReverse,
}

#[derive(Clone, Copy, PartialEq, Eq, Structural, Debug)]
pub enum AlignItems {
    Start,
    End,
    FlexStart,
    FlexEnd,
    Center,
    Baseline,
    Stretch,
}

#[derive(Clone, Copy, PartialEq, Eq, Structural, Debug)]
pub enum AlignContent {
    Start,
    End,
    FlexStart,
    FlexEnd,
    Center,
    Stretch,
    SpaceBetween,
    SpaceAround,
    SpaceEvenly,
}

#[derive(Clone, Copy, PartialEq, Eq, Structural, Debug)]
pub enum JustifyContent {
    Start,
    End,
    FlexStart,
    FlexEnd,
    Center,
    Stretch,
    SpaceBetween,
    SpaceAround,
    SpaceEvenly,
}

#[derive(Clone, Copy, PartialEq, Eq, Structural, Debug)]
pub enum OverflowType {
    Visible,
    Hidden,
    Scroll,
}

#[derive(Clone, Copy, PartialEq, Eq, Structural, Debug)]
pub enum VisibilityType {
    Visible,
    Hidden,
}

#[derive(Clone, Copy, PartialEq, Eq, Structural, Debug)]
pub enum CursorStyle {
    Default,
    Pointer,
    Text,
    Crosshair,
    NotAllowed,
    ResizeRow,
    ResizeCol,
    ResizeEw,
    ResizeNs,
    ResizeNesw,
    ResizeNwse,
    Grab,
    Grabbing,
    ZoomIn,
    ZoomOut,
    Wait,
    Progress,
}

#[derive(Clone, Copy, PartialEq, Eq, Structural, Debug)]
pub enum FontWeight {
    Thin,
    ExtraLight,
    Light,
    Normal,
    Medium,
    SemiBold,
    Bold,
    ExtraBold,
    Black,
}

#[derive(Clone, Copy, PartialEq, Eq, Structural, Debug)]
pub enum FontStyle {
    Normal,
    Italic,
}

#[derive(Clone, Copy, PartialEq, Eq, Structural, Debug)]
pub enum TextAlign {
    Left,
    Center,
    Right,
    Justify,
}

#[derive(Clone, Copy, PartialEq, Eq, Structural, Debug)]
pub enum WhiteSpace {
    Normal,
    Nowrap,
    Pre,
    PreWrap,
}

#[derive(Clone, Copy, PartialEq, Eq, Structural, Debug)]
pub enum TextOverflow {
    Clip,
    Ellipsis,
}

#[derive(Clone, Copy, PartialEq, Eq, Structural, Debug)]
pub enum TextDecoration {
    NoDecoration,
    Underline,
    Strikethrough,
}

/// Style refinement of an element: every field is optional so that only the
/// values an extension set are transmitted.
#[derive(Clone, Debug)]
pub struct Style {
    pub display: Option<DisplayType>,
    pub position: Option<PositionType>,
    pub visibility: Option<VisibilityType>,
    pub width: Option<Length>,
    pub height: Option<Length>,
    pub min_width: Option<DefiniteLength>,
    pub min_height: Option<DefiniteLength>,
    pub max_width: Option<DefiniteLength>,
    pub max_height: Option<DefiniteLength>,
    pub top: Option<Length>,
    pub right: Option<Length>,
    pub bottom: Option<Length>,
    pub left: Option<Length>,
    pub flex_direction: Option<FlexDirection>,
    pub flex_wrap: Option<FlexWrap>,
    pub align_items: Option<AlignItems>,
    pub align_content: Option<AlignContent>,
    pub justify_content: Option<JustifyContent>,
    pub gap: Option<DefiniteLength>,
    pub column_gap: Option<DefiniteLength>,
    pub row_gap: Option<DefiniteLength>,
    pub flex_grow: Option<F32Bits>,
    pub flex_shrink: Option<F32Bits>,
    pub flex_basis: Option<Length>,
    pub align_self: Option<AlignItems>,
    pub padding: Option<EdgesLength>,
    pub margin: Option<EdgesLength>,
    pub background: Option<Background>,
    pub opacity: Option<F32Bits>,
    pub border_widths: Option<EdgesAbsolute>,
    pub border_color: Option<Color>,
    pub corner_radii: Option<CornersAbsolute>,
    pub box_shadows: Vec<BoxShadow>,
    pub text_size: Option<AbsoluteLength>,
    pub text_color: Option<Color>,
    pub font_weight: Option<FontWeight>,
    pub font_style: Option<FontStyle>,
    pub font_family: Option<String>,
    pub text_align: Option<TextAlign>,
    pub line_height: Option<DefiniteLength>,
    pub letter_spacing: Option<AbsoluteLength>,
    pub white_space: Option<WhiteSpace>,
    pub text_overflow: Option<TextOverflow>,
    pub text_decoration: Option<TextDecoration>,
    pub overflow_x: Option<OverflowType>,
    pub overflow_y: Option<OverflowType>,
    pub cursor: Option<CursorStyle>,
    pub z_index: Option<u32>,
    pub pointer_events: Option<bool>,
}

/// Which interactions an element asks the host to report.
#[derive(Clone, Copy, PartialEq, Eq, Structural, Debug)]
pub struct EventFlags {
    pub on_click: bool,
    pub on_double_click: bool,
    pub on_right_click: bool,
    pub on_hover: bool,
    pub on_mouse_down: bool,
    pub on_mouse_up: bool,
    pub on_mouse_move: bool,
    pub on_scroll_wheel: bool,
    pub on_key_down: bool,
    pub on_key_up: bool,
    pub on_focus_in: bool,
    pub on_focus_out: bool,
    pub on_drag: bool,
    pub on_drop: bool,
}

/// Where an icon's SVG comes from.
#[derive(Clone, Debug)]
pub enum IconSource {
    /// An icon of the host's built-in set, by name.
    Named(String),
    /// An SVG of the extension's own assets, by path.
    Path(String),
}

/// A container node; `children` are indices into the tree's node list.
#[derive(Clone, Debug)]
pub struct DivNode {
    pub id: Option<String>,
    pub focus_handle_id: Option<u32>,
    pub style: Style,
    pub events: EventFlags,
    pub tooltip: Option<String>,
    pub children: Vec<u32>,
}

#[derive(Clone, Debug)]
pub struct TextNode {
    pub content: String,
    pub style: Style,
}

#[derive(Clone, Debug)]
pub struct ImgNode {
    pub id: Option<String>,
    pub src: String,
    pub style: Style,
    pub events: EventFlags,
}

#[derive(Clone, Debug)]
pub struct SvgNode {
    pub source: IconSource,
    pub color: Option<Color>,
    pub style: Style,
}

#[derive(Clone, Debug)]
pub struct InputNode {
    pub id: String,
    pub value: String,
    pub placeholder: Option<String>,
    pub disabled: bool,
    pub style: Style,
}

#[derive(Clone, Debug)]
pub struct UniformListNode {
    pub id: String,
    pub item_count: u32,
    pub item_height: F32Bits,
    pub style: Style,
    pub fill_width: bool,
}

/// One node of a flattened element tree.
#[derive(Clone, Debug)]
pub enum UiNode {
    Div(DivNode),
    Text(TextNode),
    Img(ImgNode),
    Svg(SvgNode),
    Input(InputNode),
    UniformList(UniformListNode),
}

/// A flattened element tree: the nodes, and the index of the root among them.
#[derive(Clone, Debug)]
pub struct UiTree {
    pub nodes: Vec<UiNode>,
    pub root: u32,
}

/// The same length on all four edges.
pub open spec fn spec_edges_all(v: Length) -> EdgesLength {
    EdgesLength { top: v, right: v, bottom: v, left: v }
}

/// The same absolute length on all four edges.
pub open spec fn spec_abs_edges_all(v: AbsoluteLength) -> EdgesAbsolute {
    EdgesAbsolute { top: v, right: v, bottom: v, left: v }
}

/// The same radius on all four corners.
pub open spec fn spec_corners_all(v: AbsoluteLength) -> CornersAbsolute {
    CornersAbsolute { top_left: v, top_right: v, bottom_right: v, bottom_left: v }
}

pub fn edges_all(v: Length) -> (r: EdgesLength)
    ensures
        r == spec_edges_all(v),
{
    EdgesLength { top: v, right: v, bottom: v, left: v }
}

pub fn abs_edges_all(v: AbsoluteLength) -> (r: EdgesAbsolute)
    ensures
        r == spec_abs_edges_all(v),
{
    EdgesAbsolute { top: v, right: v, bottom: v, left: v }
}

pub fn corners_all(v: AbsoluteLength) -> (r: CornersAbsolute)
    ensures
        r == spec_corners_all(v),
{
    CornersAbsolute { top_left: v, top_right: v, bottom_right: v, bottom_left: v }
}

/// A style that sets nothing: every option is `None` and there are no shadows.
pub open spec fn is_empty_style(s: Style) -> bool {
    &&& s.display is None
    &&& s.position is None
    &&& s.visibility is None
    &&& s.width is None
    &&& s.height is None
    &&& s.min_width is None
    &&& s.min_height is None
    &&& s.max_width is None
    &&& s.max_height is None
    &&& s.top is None
    &&& s.right is None
    &&& s.bottom is None
    &&& s.left is None
    &&& s.flex_direction is None
    &&& s.flex_wrap is None
    &&& s.align_items is None
    &&& s.align_content is None
    &&& s.justify_content is None
    &&& s.gap is None
    &&& s.column_gap is None
    &&& s.row_gap is None
    &&& s.flex_grow is None
    &&& s.flex_shrink is None
    &&& s.flex_basis is None
    &&& s.align_self is None
    &&& s.padding is None
    &&& s.margin is None
    &&& s.background is None
    &&& s.opacity is None
    &&& s.border_widths is None
    &&& s.border_color is None
    &&& s.corner_radii is None
    &&& s.box_shadows@.len() == 0
    &&& s.text_size is None
    &&& s.text_color is None
    &&& s.font_weight is None
    &&& s.font_style is None
    &&& s.font_family is None
    &&& s.text_align is None
    &&& s.line_height is None
    &&& s.letter_spacing is None
    &&& s.white_space is None
    &&& s.text_overflow is None
    &&& s.text_decoration is None
    &&& s.overflow_x is None
    &&& s.overflow_y is None
    &&& s.cursor is None
    &&& s.z_index is None
    &&& s.pointer_events is None
}

/// The style of a freshly built element.
pub fn empty_style() -> (r: Style)
    ensures
        is_empty_style(r),
{
    Style {
        display: None,
        position: None,
        visibility: None,
        width: None,
        height: None,
        min_width: None,
        min_height: None,
        max_width: None,
        max_height: None,
        top: None,
        right: None,
        bottom: None,
        left: None,
        flex_direction: None,
        flex_wrap: None,
        align_items: None,
        align_content: None,
        justify_content: None,
        gap: None,
        column_gap: None,
        row_gap: None,
        flex_grow: None,
        flex_shrink: None,
        flex_basis: None,
        align_self: None,
        padding: None,
        margin: None,
        background: None,
        opacity: None,
        border_widths: None,
        border_color: None,
        corner_radii: None,
        box_shadows: Vec::new(),
        text_size: None,
        text_color: None,
        font_weight: None,
        font_style: None,
        font_family: None,
        text_align: None,
        line_height: None,
        letter_spacing: None,
        white_space: None,
        text_overflow: None,
        text_decoration: None,
        overflow_x: None,
        overflow_y: None,
        cursor: None,
        z_index: None,
        pointer_events: None,
    }
}

/// Event flags with every interaction switched off.
pub open spec fn spec_empty_events() -> EventFlags {
    EventFlags {
        on_click: false,
        on_double_click: false,
        on_right_click: false,
        on_hover: false,
        on_mouse_down: false,
        on_mouse_up: false,
        on_mouse_move: false,
        on_scroll_wheel: false,
        on_key_down: false,
        on_key_up: false,
        on_focus_in: false,
        on_focus_out: false,
        on_drag: false,
        on_drop: false,
    }
}

pub fn empty_events() -> (r: EventFlags)
    ensures
        r == spec_empty_events(),
{
    EventFlags {
        on_click: false,
        on_double_click: false,
        on_right_click: false,
        on_hover: false,
        on_mouse_down: false,
        on_mouse_up: false,
        on_mouse_move: false,
        on_scroll_wheel: false,
        on_key_down: false,
        on_key_up: false,
        on_focus_in: false,
        on_focus_out: false,
        on_drag: false,
        on_drop: false,
    }
}

/// The view of an optional string.
pub open spec fn opt_text(o: Option<String>) -> Option<Seq<char>> {
    match o {
        Some(s) => Some(s@),
        None => None,
    }
}

/// Two styles set the same properties to the same values.
pub open spec fn same_style(a: Style, b: Style) -> bool {
    &&& (Style { box_shadows: b.box_shadows, font_family: b.font_family, ..a }) == b
    &&& a.box_shadows@ == b.box_shadows@
    &&& opt_text(a.font_family) == opt_text(b.font_family)
}

/// Two icon sources name the same icon.
pub open spec fn same_icon(a: IconSource, b: IconSource) -> bool {
    match (a, b) {
        (IconSource::Named(x), IconSource::Named(y)) => x@ == y@,
        (IconSource::Path(x), IconSource::Path(y)) => x@ == y@,
        _ => false,
    }
}

/// Two nodes have the same kind and the same content.
pub open spec fn same_node(a: UiNode, b: UiNode) -> bool {
    match (a, b) {
        (UiNode::Div(x), UiNode::Div(y)) => {
            &&& opt_text(x.id) == opt_text(y.id)
            &&& x.focus_handle_id == y.focus_handle_id
            &&& same_style(x.style, y.style)
            &&& x.events == y.events
            &&& opt_text(x.tooltip) == opt_text(y.tooltip)
            &&& x.children@ == y.children@
        },
        (UiNode::Text(x), UiNode::Text(y)) => x.content@ == y.content@ && same_style(x.style, y.style),
        (UiNode::Img(x), UiNode::Img(y)) => {
            &&& opt_text(x.id) == opt_text(y.id)
            &&& x.src@ == y.src@
            &&& same_style(x.style, y.style)
            &&& x.events == y.events
        },
        (UiNode::Svg(x), UiNode::Svg(y)) => {
            &&& same_icon(x.source, y.source)
            &&& x.color == y.color
            &&& same_style(x.style, y.style)
        },
        (UiNode::Input(x), UiNode::Input(y)) => {
            &&& x.id@ == y.id@
            &&& x.value@ == y.value@
            &&& opt_text(x.placeholder) == opt_text(y.placeholder)
            &&& x.disabled == y.disabled
            &&& same_style(x.style, y.style)
        },
        (UiNode::UniformList(x), UiNode::UniformList(y)) => {
            &&& x.id@ == y.id@
            &&& x.item_count == y.item_count
            &&& x.item_height == y.item_height
            &&& same_style(x.style, y.style)
            &&& x.fill_width == y.fill_width
        },
        _ => false,
    }
}

/// Two trees have the same root and the same nodes, one for one.
pub open spec fn same_tree(a: UiTree, b: UiTree) -> bool {
    &&& a.root == b.root
    &&& a.nodes@.len() == b.nodes@.len()
    &&& forall|i: int| 0 <= i < a.nodes@.len() ==> #[trigger] same_node(a.nodes@[i], b.nodes@[i])
}

fn opt_str_eq(a: &Option<String>, b: &Option<String>) -> (r: bool)
    ensures
        r == (opt_text(*a) == opt_text(*b)),
{
    match (a, b) {
        (Some(x), Some(y)) => crate::text::str_eq(x.as_str(), y.as_str()),
        (None, None) => true,
        _ => false,
    }
}

fn shadows_eq(a: &Vec<BoxShadow>, b: &Vec<BoxShadow>) -> (r: bool)
    ensures
        r == (a@ == b@),
{
    if a.len() != b.len() {
        return false;
    }
    let mut i: usize = 0;
    while i < a.len()
        invariant
            a@.len() == b@.len(),
            i <= a@.len(),
            forall|k: int| 0 <= k < i ==> a@[k] == b@[k],
        decreases a@.len() - i,
    {
        if a[i] != b[i] {
            return false;
        }
        i += 1;
    }
    assert(a@ =~= b@);
    true
}

/// Whether two styles set the same properties to the same values.
pub fn style_eq(a: &Style, b: &Style) -> (r: bool)
    ensures
        r == same_style(*a, *b),
{
    let same = a.display == b.display
        && a.position == b.position
        && a.visibility == b.visibility
        && a.width == b.width
        && a.height == b.height
        && a.min_width == b.min_width
        && a.min_height == b.min_height
        && a.max_width == b.max_width
        && a.max_height == b.max_height
        && a.top == b.top
        && a.right == b.right
        && a.bottom == b.bottom
        && a.left == b.left
        && a.flex_direction == b.flex_direction
        && a.flex_wrap == b.flex_wrap
        && a.align_items == b.align_items
        && a.align_content == b.align_content
        && a.justify_content == b.justify_content
        && a.gap == b.gap
        && a.column_gap == b.column_gap
        && a.row_gap == b.row_gap
        && a.flex_grow == b.flex_grow
        && a.flex_shrink == b.flex_shrink
        && a.flex_basis == b.flex_basis
        && a.align_self == b.align_self
        && a.padding == b.padding
        && a.margin == b.margin
        && a.background == b.background
        && a.opacity == b.opacity
        && a.border_widths == b.border_widths
        && a.border_color == b.border_color
        && a.corner_radii == b.corner_radii
        && a.text_size == b.text_size
        && a.text_color == b.text_color
        && a.font_weight == b.font_weight
        && a.font_style == b.font_style
        && a.text_align == b.text_align
        && a.line_height == b.line_height
        && a.letter_spacing == b.letter_spacing
        && a.white_space == b.white_space
        && a.text_overflow == b.text_overflow
        && a.text_decoration == b.text_decoration
        && a.overflow_x == b.overflow_x
        && a.overflow_y == b.overflow_y
        && a.cursor == b.cursor
        && a.z_index == b.z_index
        && a.pointer_events == b.pointer_events;
    same && shadows_eq(&a.box_shadows, &b.box_shadows) && opt_str_eq(&a.font_family, &b.font_family)
}

fn icon_eq(a: &IconSource, b: &IconSource) -> (r: bool)
    ensures
        r == same_icon(*a, *b),
{
    match (a, b) {
        (IconSource::Named(x), IconSource::Named(y)) => crate::text::str_eq(x.as_str(), y.as_str()),
        (IconSource::Path(x), IconSource::Path(y)) => crate::text::str_eq(x.as_str(), y.as_str()),
        _ => false,
    }
}

fn children_eq(a: &Vec<u32>, b: &Vec<u32>) -> (r: bool)
    ensures
        r == (a@ == b@),
{
    if a.len() != b.len() {
        return false;
    }
    let mut i: usize = 0;
    while i < a.len()
        invariant
            a@.len() == b@.len(),
            i <= a@.len(),
            forall|k: int| 0 <= k < i ==> a@[k] == b@[k],
        decreases a@.len() - i,
    {
        if a[i] != b[i] {
            return false;
        }
        i += 1;
    }
    assert(a@ =~= b@);
    true
}

/// Whether two nodes have the same kind and the same content.
pub fn node_eq(a: &UiNode, b: &UiNode) -> (r: bool)
    ensures
        r == same_node(*a, *b),
{
    match (a, b) {
        (UiNode::Div(x), UiNode::Div(y)) => opt_str_eq(&x.id, &y.id) && x.focus_handle_id == y.focus_handle_id
            && style_eq(&x.style, &y.style) && x.events == y.events && opt_str_eq(&x.tooltip, &y.tooltip)
            && children_eq(&x.children, &y.children),
        (UiNode::Text(x), UiNode::Text(y)) => crate::text::str_eq(x.content.as_str(), y.content.as_str())
            && style_eq(&x.style, &y.style),
        (UiNode::Img(x), UiNode::Img(y)) => opt_str_eq(&x.id, &y.id) && crate::text::str_eq(x.src.as_str(), y.src.as_str())
            && style_eq(&x.style, &y.style) && x.events == y.events,
        (UiNode::Svg(x), UiNode::Svg(y)) => icon_eq(&x.source, &y.source) && x.color == y.color
            && style_eq(&x.style, &y.style),
        (UiNode::Input(x), UiNode::Input(y)) => crate::text::str_eq(x.id.as_str(), y.id.as_str())
            && crate::text::str_eq(x.value.as_str(), y.value.as_str()) && opt_str_eq(&x.placeholder, &y.placeholder)
            && x.disabled == y.disabled && style_eq(&x.style, &y.style),
        (UiNode::UniformList(x), UiNode::UniformList(y)) => crate::text::str_eq(x.id.as_str(), y.id.as_str())
            && x.item_count == y.item_count && x.item_height == y.item_height
            && style_eq(&x.style, &y.style) && x.fill_width == y.fill_width,
        _ => false,
    }
}

/// Whether two trees have the same root and the same nodes.
pub fn tree_eq(a: &UiTree, b: &UiTree) -> (r: bool)
    ensures
        r == same_tree(*a, *b),
{
    if a.root != b.root || a.nodes.len() != b.nodes.len() {
        return false;
    }
    let mut i: usize = 0;
    while i < a.nodes.len()
        invariant
            a.nodes@.len() == b.nodes@.len(),
            i <= a.nodes@.len(),
            forall|k: int| 0 <= k < i ==> #[trigger] same_node(a.nodes@[k], b.nodes@[k]),
        decreases a.nodes@.len() - i,
    {
        if !node_eq(&a.nodes[i], &b.nodes[i]) {
            return false;
        }
        i += 1;
    }
    true
}

} // verus!
