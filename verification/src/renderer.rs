//! The host's side of a rendered tree: how the wire format's styles, colors
//! and event flags become properties and listeners of host elements, and how
//! the host's input events become the events an extension receives.
//!
//! Host elements are modelled as plain values: the renderer decides what each
//! element is, and the windowing layer only draws what it is given.
use vstd::prelude::*;
use crate::elements::{
    AbsoluteLength, AlignContent, AlignItems, Background, BoxShadow, Color, CursorStyle,
    CornersAbsolute, DefiniteLength, DisplayType, EdgesAbsolute, EdgesLength, EventFlags, F32Bits, FlexDirection, FlexWrap, FontStyle,
    FontWeight, Hsla, IconSource, JustifyContent, Length, OverflowType, PositionType, Style,
    InputNode, DivNode, TextNode, SvgNode, ImgNode, UniformListNode, UiNode, UiTree, VisibilityType, F32_0,
};
use crate::events::{KeyEventData, MouseEventData, ScrollEventData, UiEvent};
use crate::flatten::children_forward;
use crate::text::concat_str;

verus! {

/// An absolute length in the host's units.
#[derive(Clone, Copy, PartialEq, Eq, Structural, Debug)]
pub enum HostAbsolute {
    Pixels(F32Bits),
    Rems(F32Bits),
}

/// A definite length in the host's units: absolute, or a fraction of the parent.
#[derive(Clone, Copy, PartialEq, Eq, Structural, Debug)]
pub enum HostDefinite {
    Absolute(HostAbsolute),
    Fraction(F32Bits),
}

/// A length in the host's units.
#[derive(Clone, Copy, PartialEq, Eq, Structural, Debug)]
pub enum HostLength {
    Definite(HostDefinite),
    Auto,
}

/// The host's mouse cursors.
#[derive(Clone, Copy, PartialEq, Eq, Structural, Debug)]
pub enum HostCursor {
    Arrow,
    PointingHand,
    IBeam,
    Crosshair,
    OperationNotAllowed,
    ResizeUpDown,
    ResizeLeftRight,
    ResizeUpRightDownLeft,
    ResizeUpLeftDownRight,
    OpenHand,
    ClosedHand,
}

/// A color of the host's active theme, by the slot it is read from, or a
/// color given outright.
#[derive(Clone, Copy, PartialEq, Eq, Structural, Debug)]
pub enum ThemeColor {
    Custom(Hsla),
    Text,
    TextMuted,
    TextDisabled,
    TextAccent,
    TextPlaceholder,
    Background,
    SurfaceBackground,
    ElevatedSurfaceBackground,
    PanelBackground,
    Border,
    BorderVariant,
    BorderFocused,
    ElementBackground,
    ElementHover,
    ElementSelected,
    ElementActive,
    ElementDisabled,
    GhostElementBackground,
    GhostElementHover,
    GhostElementSelected,
    StatusError,
    StatusWarning,
    StatusSuccess,
    StatusInfo,
    EditorBackground,
}

pub open spec fn spec_cvt_absolute(l: AbsoluteLength) -> HostAbsolute {
    match l {
        AbsoluteLength::Px(v) => HostAbsolute::Pixels(v),
        AbsoluteLength::Rems(v) => HostAbsolute::Rems(v),
    }
}

pub open spec fn spec_cvt_definite(l: DefiniteLength) -> HostDefinite {
    match l {
        DefiniteLength::Px(v) => HostDefinite::Absolute(HostAbsolute::Pixels(v)),
        DefiniteLength::Rems(v) => HostDefinite::Absolute(HostAbsolute::Rems(v)),
        DefiniteLength::Relative(v) => HostDefinite::Fraction(v),
    }
}

/// Pixels, rems and fractions carry over; `fr` units have no host
/// counterpart and become `auto`.
pub open spec fn spec_cvt_length(l: Length) -> HostLength {
    match l {
        Length::Px(v) => HostLength::Definite(HostDefinite::Absolute(HostAbsolute::Pixels(v))),
        Length::Rems(v) => HostLength::Definite(HostDefinite::Absolute(HostAbsolute::Rems(v))),
        Length::Relative(v) => HostLength::Definite(HostDefinite::Fraction(v)),
        Length::Auto => HostLength::Auto,
        Length::Fr(_) => HostLength::Auto,
    }
}

/// A definite length as it is, and `auto` as zero pixels.
pub open spec fn spec_definite_or_zero(l: HostLength) -> HostDefinite {
    match l {
        HostLength::Definite(d) => d,
        HostLength::Auto => HostDefinite::Absolute(HostAbsolute::Pixels(F32_0)),
    }
}

/// Converts an absolute length to the host's units.
pub fn cvt_absolute(l: AbsoluteLength) -> (r: HostAbsolute)
    ensures
        r == spec_cvt_absolute(l),
{
    match l {
        AbsoluteLength::Px(v) => HostAbsolute::Pixels(v),
        AbsoluteLength::Rems(v) => HostAbsolute::Rems(v),
    }
}

/// Converts a definite length to the host's units.
pub fn cvt_definite(l: DefiniteLength) -> (r: HostDefinite)
    ensures
        r == spec_cvt_definite(l),
{
    match l {
        DefiniteLength::Px(v) => HostDefinite::Absolute(HostAbsolute::Pixels(v)),
        DefiniteLength::Rems(v) => HostDefinite::Absolute(HostAbsolute::Rems(v)),
        DefiniteLength::Relative(v) => HostDefinite::Fraction(v),
    }
}

/// Converts a length to the host's units.
pub fn cvt_length(l: Length) -> (r: HostLength)
    ensures
        r == spec_cvt_length(l),
{
    match l {
        Length::Px(v) => HostLength::Definite(HostDefinite::Absolute(HostAbsolute::Pixels(v))),
        Length::Rems(v) => HostLength::Definite(HostDefinite::Absolute(HostAbsolute::Rems(v))),
        Length::Relative(v) => HostLength::Definite(HostDefinite::Fraction(v)),
        Length::Auto => HostLength::Auto,
        Length::Fr(_) => HostLength::Auto,
    }
}

/// A length where only a definite one fits: `auto` becomes zero pixels.
pub fn definite_or_zero(l: HostLength) -> (r: HostDefinite)
    ensures
        r == spec_definite_or_zero(l),
{
    match l {
        HostLength::Definite(d) => d,
        HostLength::Auto => HostDefinite::Absolute(HostAbsolute::Pixels(F32_0)),
    }
}

/// Four edges in the host's units.
#[derive(Clone, Copy, PartialEq, Eq, Structural, Debug)]
pub struct HostEdges<T> {
    pub top: T,
    pub right: T,
    pub bottom: T,
    pub left: T,
}

/// Four corners in the host's units.
#[derive(Clone, Copy, PartialEq, Eq, Structural, Debug)]
pub struct HostCorners<T> {
    pub top_left: T,
    pub top_right: T,
    pub bottom_right: T,
    pub bottom_left: T,
}

/// Converts the four edges of a margin.
pub fn cvt_edges_length(e: EdgesLength) -> (r: HostEdges<HostLength>)
    ensures
        r == (HostEdges {
            top: spec_cvt_length(e.top),
            right: spec_cvt_length(e.right),
            bottom: spec_cvt_length(e.bottom),
            left: spec_cvt_length(e.left),
        }),
{
    HostEdges {
        top: cvt_length(e.top),
        right: cvt_length(e.right),
        bottom: cvt_length(e.bottom),
        left: cvt_length(e.left),
    }
}

/// Converts the four edges of a padding, which must be definite: `auto`
/// becomes zero pixels.
pub fn cvt_edges_definite(e: EdgesLength) -> (r: HostEdges<HostDefinite>)
    ensures
        r == (HostEdges {
            top: spec_definite_or_zero(spec_cvt_length(e.top)),
            right: spec_definite_or_zero(spec_cvt_length(e.right)),
            bottom: spec_definite_or_zero(spec_cvt_length(e.bottom)),
            left: spec_definite_or_zero(spec_cvt_length(e.left)),
        }),
{
    HostEdges {
        top: definite_or_zero(cvt_length(e.top)),
        right: definite_or_zero(cvt_length(e.right)),
        bottom: definite_or_zero(cvt_length(e.bottom)),
        left: definite_or_zero(cvt_length(e.left)),
    }
}

/// Converts the four border widths.
pub fn cvt_edges_absolute(e: EdgesAbsolute) -> (r: HostEdges<HostAbsolute>)
    ensures
        r == (HostEdges {
            top: spec_cvt_absolute(e.top),
            right: spec_cvt_absolute(e.right),
            bottom: spec_cvt_absolute(e.bottom),
            left: spec_cvt_absolute(e.left),
        }),
{
    HostEdges {
        top: cvt_absolute(e.top),
        right: cvt_absolute(e.right),
        bottom: cvt_absolute(e.bottom),
        left: cvt_absolute(e.left),
    }
}

/// Converts the four corner radii.
pub fn cvt_corners(c: CornersAbsolute) -> (r: HostCorners<HostAbsolute>)
    ensures
        r == (HostCorners {
            top_left: spec_cvt_absolute(c.top_left),
            top_right: spec_cvt_absolute(c.top_right),
            bottom_right: spec_cvt_absolute(c.bottom_right),
            bottom_left: spec_cvt_absolute(c.bottom_left),
        }),
{
    HostCorners {
        top_left: cvt_absolute(c.top_left),
        top_right: cvt_absolute(c.top_right),
        bottom_right: cvt_absolute(c.bottom_right),
        bottom_left: cvt_absolute(c.bottom_left),
    }
}

/// The host aligns content along the main axis with the same set of values
/// as across it.
pub open spec fn spec_cvt_justify_content(j: JustifyContent) -> AlignContent {
    match j {
        JustifyContent::Start => AlignContent::Start,
        JustifyContent::End => AlignContent::End,
        JustifyContent::FlexStart => AlignContent::FlexStart,
        JustifyContent::FlexEnd => AlignContent::FlexEnd,
        JustifyContent::Center => AlignContent::Center,
        JustifyContent::Stretch => AlignContent::Stretch,
        JustifyContent::SpaceBetween => AlignContent::SpaceBetween,
        JustifyContent::SpaceAround => AlignContent::SpaceAround,
        JustifyContent::SpaceEvenly => AlignContent::SpaceEvenly,
    }
}

/// Converts a main-axis justification.
pub fn cvt_justify_content(j: JustifyContent) -> (r: AlignContent)
    ensures
        r == spec_cvt_justify_content(j),
{
    match j {
        JustifyContent::Start => AlignContent::Start,
        JustifyContent::End => AlignContent::End,
        JustifyContent::FlexStart => AlignContent::FlexStart,
        JustifyContent::FlexEnd => AlignContent::FlexEnd,
        JustifyContent::Center => AlignContent::Center,
        JustifyContent::Stretch => AlignContent::Stretch,
        JustifyContent::SpaceBetween => AlignContent::SpaceBetween,
        JustifyContent::SpaceAround => AlignContent::SpaceAround,
        JustifyContent::SpaceEvenly => AlignContent::SpaceEvenly,
    }
}

/// The numeric weight of each font weight, from 100 (thin) to 900 (black).
pub open spec fn spec_font_weight_value(w: FontWeight) -> u16 {
    match w {
        FontWeight::Thin => 100,
        FontWeight::ExtraLight => 200,
        FontWeight::Light => 300,
        FontWeight::Normal => 400,
        FontWeight::Medium => 500,
        FontWeight::SemiBold => 600,
        FontWeight::Bold => 700,
        FontWeight::ExtraBold => 800,
        FontWeight::Black => 900,
    }
}

/// The numeric weight of a font weight.
pub fn font_weight_value(w: FontWeight) -> (r: u16)
    ensures
        r == spec_font_weight_value(w),
{
    match w {
        FontWeight::Thin => 100,
        FontWeight::ExtraLight => 200,
        FontWeight::Light => 300,
        FontWeight::Normal => 400,
        FontWeight::Medium => 500,
        FontWeight::SemiBold => 600,
        FontWeight::Bold => 700,
        FontWeight::ExtraBold => 800,
        FontWeight::Black => 900,
    }
}

/// The host cursor shown for each requested cursor; zoom and busy cursors
/// have no host counterpart and show the arrow.
pub open spec fn spec_host_cursor(c: CursorStyle) -> HostCursor {
    match c {
        CursorStyle::Default => HostCursor::Arrow,
        CursorStyle::Pointer => HostCursor::PointingHand,
        CursorStyle::Text => HostCursor::IBeam,
        CursorStyle::Crosshair => HostCursor::Crosshair,
        CursorStyle::NotAllowed => HostCursor::OperationNotAllowed,
        CursorStyle::ResizeRow | CursorStyle::ResizeNs => HostCursor::ResizeUpDown,
        CursorStyle::ResizeCol | CursorStyle::ResizeEw => HostCursor::ResizeLeftRight,
        CursorStyle::ResizeNesw => HostCursor::ResizeUpRightDownLeft,
        CursorStyle::ResizeNwse => HostCursor::ResizeUpLeftDownRight,
        CursorStyle::Grab => HostCursor::OpenHand,
        CursorStyle::Grabbing => HostCursor::ClosedHand,
        CursorStyle::ZoomIn | CursorStyle::ZoomOut => HostCursor::Arrow,
        CursorStyle::Wait | CursorStyle::Progress => HostCursor::Arrow,
    }
}

/// The host cursor for a requested cursor.
pub fn host_cursor(c: CursorStyle) -> (r: HostCursor)
    ensures
        r == spec_host_cursor(c),
{
    match c {
        CursorStyle::Default => HostCursor::Arrow,
        CursorStyle::Pointer => HostCursor::PointingHand,
        CursorStyle::Text => HostCursor::IBeam,
        CursorStyle::Crosshair => HostCursor::Crosshair,
        CursorStyle::NotAllowed => HostCursor::OperationNotAllowed,
        CursorStyle::ResizeRow | CursorStyle::ResizeNs => HostCursor::ResizeUpDown,
        CursorStyle::ResizeCol | CursorStyle::ResizeEw => HostCursor::ResizeLeftRight,
        CursorStyle::ResizeNesw => HostCursor::ResizeUpRightDownLeft,
        CursorStyle::ResizeNwse => HostCursor::ResizeUpLeftDownRight,
        CursorStyle::Grab => HostCursor::OpenHand,
        CursorStyle::Grabbing => HostCursor::ClosedHand,
        CursorStyle::ZoomIn | CursorStyle::ZoomOut => HostCursor::Arrow,
        CursorStyle::Wait | CursorStyle::Progress => HostCursor::Arrow,
    }
}

/// The theme slot each semantic color is read from. Transparent colors
/// resolve to nothing; "muted border" reads the theme's border variant and
/// "accent" the accent text color.
pub open spec fn spec_resolve_color(c: Color) -> Option<ThemeColor> {
    match c {
        Color::Hsla(h) => Some(ThemeColor::Custom(h)),
        Color::Transparent => None,
        Color::Text => Some(ThemeColor::Text),
        Color::TextMuted => Some(ThemeColor::TextMuted),
        Color::TextDisabled => Some(ThemeColor::TextDisabled),
        Color::TextAccent => Some(ThemeColor::TextAccent),
        Color::TextPlaceholder => Some(ThemeColor::TextPlaceholder),
        Color::Background => Some(ThemeColor::Background),
        Color::SurfaceBackground => Some(ThemeColor::SurfaceBackground),
        Color::ElevatedSurfaceBackground => Some(ThemeColor::ElevatedSurfaceBackground),
        Color::PanelBackground => Some(ThemeColor::PanelBackground),
        Color::Border => Some(ThemeColor::Border),
        Color::BorderMuted => Some(ThemeColor::BorderVariant),
        Color::BorderFocused => Some(ThemeColor::BorderFocused),
        Color::BorderTransparent => None,
        Color::ElementBackground => Some(ThemeColor::ElementBackground),
        Color::ElementHover => Some(ThemeColor::ElementHover),
        Color::ElementSelected => Some(ThemeColor::ElementSelected),
        Color::ElementActive => Some(ThemeColor::ElementActive),
        Color::ElementDisabled => Some(ThemeColor::ElementDisabled),
        Color::GhostElementBackground => Some(ThemeColor::GhostElementBackground),
        Color::GhostElementHover => Some(ThemeColor::GhostElementHover),
        Color::GhostElementSelected => Some(ThemeColor::GhostElementSelected),
        Color::StatusError => Some(ThemeColor::StatusError),
        Color::StatusWarning => Some(ThemeColor::StatusWarning),
        Color::StatusSuccess => Some(ThemeColor::StatusSuccess),
        Color::StatusInfo => Some(ThemeColor::StatusInfo),
        Color::EditorBackground => Some(ThemeColor::EditorBackground),
        Color::Accent => Some(ThemeColor::TextAccent),
    }
}

/// Resolves a color against the theme: the slot to read, or nothing for a
/// transparent color.
pub fn resolve_color(c: Color) -> (r: Option<ThemeColor>)
    ensures
        r == spec_resolve_color(c),
{
    match c {
        Color::Hsla(h) => Some(ThemeColor::Custom(h)),
        Color::Transparent => None,
        Color::Text => Some(ThemeColor::Text),
        Color::TextMuted => Some(ThemeColor::TextMuted),
        Color::TextDisabled => Some(ThemeColor::TextDisabled),
        Color::TextAccent => Some(ThemeColor::TextAccent),
        Color::TextPlaceholder => Some(ThemeColor::TextPlaceholder),
        Color::Background => Some(ThemeColor::Background),
        Color::SurfaceBackground => Some(ThemeColor::SurfaceBackground),
        Color::ElevatedSurfaceBackground => Some(ThemeColor::ElevatedSurfaceBackground),
        Color::PanelBackground => Some(ThemeColor::PanelBackground),
        Color::Border => Some(ThemeColor::Border),
        Color::BorderMuted => Some(ThemeColor::BorderVariant),
        Color::BorderFocused => Some(ThemeColor::BorderFocused),
        Color::BorderTransparent => None,
        Color::ElementBackground => Some(ThemeColor::ElementBackground),
        Color::ElementHover => Some(ThemeColor::ElementHover),
        Color::ElementSelected => Some(ThemeColor::ElementSelected),
        Color::ElementActive => Some(ThemeColor::ElementActive),
        Color::ElementDisabled => Some(ThemeColor::ElementDisabled),
        Color::GhostElementBackground => Some(ThemeColor::GhostElementBackground),
        Color::GhostElementHover => Some(ThemeColor::GhostElementHover),
        Color::GhostElementSelected => Some(ThemeColor::GhostElementSelected),
        Color::StatusError => Some(ThemeColor::StatusError),
        Color::StatusWarning => Some(ThemeColor::StatusWarning),
        Color::StatusSuccess => Some(ThemeColor::StatusSuccess),
        Color::StatusInfo => Some(ThemeColor::StatusInfo),
        Color::EditorBackground => Some(ThemeColor::EditorBackground),
        Color::Accent => Some(ThemeColor::TextAccent),
    }
}

/// Resolves a background fill to a theme color, or nothing when transparent.
pub fn resolve_background(bg: Background) -> (r: Option<ThemeColor>)
    ensures
        r == (match bg {
            Background::Color(c) => spec_resolve_color(c),
        }),
{
    match bg {
        Background::Color(c) => resolve_color(c),
    }
}

/// A copy of a list of drop shadows.
fn copy_shadows(v: &Vec<BoxShadow>) -> (r: Vec<BoxShadow>)
    ensures
        r@ == v@,
{
    let mut r: Vec<BoxShadow> = Vec::new();
    let mut i: usize = 0;
    while i < v.len()
        invariant
            i <= v@.len(),
            r@ == v@.take(i as int),
        decreases v@.len() - i,
    {
        r.push(v[i]);
        proof {
            assert(v@.take(i + 1) =~= v@.take(i as int).push(v@[i as int]));
        }
        i += 1;
    }
    assert(v@.take(i as int) =~= v@);
    r
}

/// Style of a host element: what the renderer sets on it, field by field.
/// Every field left `None` keeps the host's default.
#[derive(Clone, Debug)]
pub struct HostStyle {
    pub display: Option<DisplayType>,
    pub position: Option<PositionType>,
    pub visibility: Option<VisibilityType>,
    pub width: Option<HostLength>,
    pub height: Option<HostLength>,
    pub min_width: Option<HostLength>,
    pub min_height: Option<HostLength>,
    pub max_width: Option<HostLength>,
    pub max_height: Option<HostLength>,
    pub inset_top: Option<HostLength>,
    pub inset_right: Option<HostLength>,
    pub inset_bottom: Option<HostLength>,
    pub inset_left: Option<HostLength>,
    pub flex_direction: Option<FlexDirection>,
    pub flex_wrap: Option<FlexWrap>,
    pub align_items: Option<AlignItems>,
    pub align_content: Option<AlignContent>,
    pub justify_content: Option<AlignContent>,
    pub gap_width: Option<HostDefinite>,
    pub gap_height: Option<HostDefinite>,
    pub flex_grow: Option<F32Bits>,
    pub flex_shrink: Option<F32Bits>,
    pub flex_basis: Option<HostLength>,
    pub align_self: Option<AlignItems>,
    pub padding_top: Option<HostDefinite>,
    pub padding_right: Option<HostDefinite>,
    pub padding_bottom: Option<HostDefinite>,
    pub padding_left: Option<HostDefinite>,
    pub margin_top: Option<HostLength>,
    pub margin_right: Option<HostLength>,
    pub margin_bottom: Option<HostLength>,
    pub margin_left: Option<HostLength>,
    pub background: Option<ThemeColor>,
    pub opacity: Option<F32Bits>,
    pub border_top: Option<HostAbsolute>,
    pub border_right: Option<HostAbsolute>,
    pub border_bottom: Option<HostAbsolute>,
    pub border_left: Option<HostAbsolute>,
    pub border_color: Option<ThemeColor>,
    pub corner_top_left: Option<HostAbsolute>,
    pub corner_top_right: Option<HostAbsolute>,
    pub corner_bottom_right: Option<HostAbsolute>,
    pub corner_bottom_left: Option<HostAbsolute>,
    pub box_shadow: Option<Vec<BoxShadow>>,
    pub font_size: Option<HostAbsolute>,
    pub text_color: Option<ThemeColor>,
    pub font_weight: Option<u16>,
    pub font_style: Option<FontStyle>,
    pub font_family: Option<String>,
    pub overflow_x: Option<OverflowType>,
    pub overflow_y: Option<OverflowType>,
    pub mouse_cursor: Option<HostCursor>,
}

/// The style of a freshly created host element: nothing set.
pub open spec fn default_host_style() -> HostStyle {
    HostStyle {
        display: None,
        position: None,
        visibility: None,
        width: None,
        height: None,
        min_width: None,
        min_height: None,
        max_width: None,
        max_height: None,
        inset_top: None,
        inset_right: None,
        inset_bottom: None,
        inset_left: None,
        flex_direction: None,
        flex_wrap: None,
        align_items: None,
        align_content: None,
        justify_content: None,
        gap_width: None,
        gap_height: None,
        flex_grow: None,
        flex_shrink: None,
        flex_basis: None,
        align_self: None,
        padding_top: None,
        padding_right: None,
        padding_bottom: None,
        padding_left: None,
        margin_top: None,
        margin_right: None,
        margin_bottom: None,
        margin_left: None,
        background: None,
        opacity: None,
        border_top: None,
        border_right: None,
        border_bottom: None,
        border_left: None,
        border_color: None,
        corner_top_left: None,
        corner_top_right: None,
        corner_bottom_right: None,
        corner_bottom_left: None,
        box_shadow: None,
        font_size: None,
        text_color: None,
        font_weight: None,
        font_style: None,
        font_family: None,
        overflow_x: None,
        overflow_y: None,
        mouse_cursor: None,
    }
}

impl HostStyle {
    /// A style with nothing set.
    pub fn new() -> (r: HostStyle)
        ensures
            r == default_host_style(),
    {
        HostStyle {
            display: None,
            position: None,
            visibility: None,
            width: None,
            height: None,
            min_width: None,
            min_height: None,
            max_width: None,
            max_height: None,
            inset_top: None,
            inset_right: None,
            inset_bottom: None,
            inset_left: None,
            flex_direction: None,
            flex_wrap: None,
            align_items: None,
            align_content: None,
            justify_content: None,
            gap_width: None,
            gap_height: None,
            flex_grow: None,
            flex_shrink: None,
            flex_basis: None,
            align_self: None,
            padding_top: None,
            padding_right: None,
            padding_bottom: None,
            padding_left: None,
            margin_top: None,
            margin_right: None,
            margin_bottom: None,
            margin_left: None,
            background: None,
            opacity: None,
            border_top: None,
            border_right: None,
            border_bottom: None,
            border_left: None,
            border_color: None,
            corner_top_left: None,
            corner_top_right: None,
            corner_bottom_right: None,
            corner_bottom_left: None,
            box_shadow: None,
            font_size: None,
            text_color: None,
            font_weight: None,
            font_style: None,
            font_family: None,
            overflow_x: None,
            overflow_y: None,
            mouse_cursor: None,
        }
    }
}

/// `new` is `old` with the style `s` applied: each property that `s` sets
/// replaces the one of `old`, converted to the host's units; a color that
/// resolves to nothing clears the border and text color but leaves the
/// background as it was; gaps set per axis win over the shared gap.
/// Line height, letter spacing, white space, text overflow, decoration,
/// alignment, z-index and pointer events are not carried over.
pub open spec fn style_applied(old: HostStyle, s: Style, new: HostStyle) -> bool {
    &&& new.display == (if s.display is Some { s.display } else { old.display })
    &&& new.position == (if s.position is Some { s.position } else { old.position })
    &&& new.visibility == (if s.visibility is Some { s.visibility } else { old.visibility })
    &&& new.width == (match s.width { Some(v) => Some(spec_cvt_length(v)), None => old.width })
    &&& new.height == (match s.height { Some(v) => Some(spec_cvt_length(v)), None => old.height })
    &&& new.min_width == (match s.min_width { Some(v) => Some(HostLength::Definite(spec_cvt_definite(v))), None => old.min_width })
    &&& new.min_height == (match s.min_height { Some(v) => Some(HostLength::Definite(spec_cvt_definite(v))), None => old.min_height })
    &&& new.max_width == (match s.max_width { Some(v) => Some(HostLength::Definite(spec_cvt_definite(v))), None => old.max_width })
    &&& new.max_height == (match s.max_height { Some(v) => Some(HostLength::Definite(spec_cvt_definite(v))), None => old.max_height })
    &&& new.inset_top == (match s.top { Some(v) => Some(spec_cvt_length(v)), None => old.inset_top })
    &&& new.inset_right == (match s.right { Some(v) => Some(spec_cvt_length(v)), None => old.inset_right })
    &&& new.inset_bottom == (match s.bottom { Some(v) => Some(spec_cvt_length(v)), None => old.inset_bottom })
    &&& new.inset_left == (match s.left { Some(v) => Some(spec_cvt_length(v)), None => old.inset_left })
    &&& new.flex_direction == (if s.flex_direction is Some { s.flex_direction } else { old.flex_direction })
    &&& new.flex_wrap == (if s.flex_wrap is Some { s.flex_wrap } else { old.flex_wrap })
    &&& new.align_items == (if s.align_items is Some { s.align_items } else { old.align_items })
    &&& new.align_content == (if s.align_content is Some { s.align_content } else { old.align_content })
    &&& new.justify_content == (match s.justify_content { Some(v) => Some(spec_cvt_justify_content(v)), None => old.justify_content })
    &&& new.gap_width == (match s.column_gap { Some(v) => Some(spec_cvt_definite(v)), None => match s.gap { Some(g) => Some(spec_cvt_definite(g)), None => old.gap_width } })
    &&& new.gap_height == (match s.row_gap { Some(v) => Some(spec_cvt_definite(v)), None => match s.gap { Some(g) => Some(spec_cvt_definite(g)), None => old.gap_height } })
    &&& new.flex_grow == (if s.flex_grow is Some { s.flex_grow } else { old.flex_grow })
    &&& new.flex_shrink == (if s.flex_shrink is Some { s.flex_shrink } else { old.flex_shrink })
    &&& new.flex_basis == (match s.flex_basis { Some(v) => Some(spec_cvt_length(v)), None => old.flex_basis })
    &&& new.align_self == (if s.align_self is Some { s.align_self } else { old.align_self })
    &&& new.padding_top == (match s.padding { Some(e) => Some(spec_definite_or_zero(spec_cvt_length(e.top))), None => old.padding_top })
    &&& new.padding_right == (match s.padding { Some(e) => Some(spec_definite_or_zero(spec_cvt_length(e.right))), None => old.padding_right })
    &&& new.padding_bottom == (match s.padding { Some(e) => Some(spec_definite_or_zero(spec_cvt_length(e.bottom))), None => old.padding_bottom })
    &&& new.padding_left == (match s.padding { Some(e) => Some(spec_definite_or_zero(spec_cvt_length(e.left))), None => old.padding_left })
    &&& new.margin_top == (match s.margin { Some(e) => Some(spec_cvt_length(e.top)), None => old.margin_top })
    &&& new.margin_right == (match s.margin { Some(e) => Some(spec_cvt_length(e.right)), None => old.margin_right })
    &&& new.margin_bottom == (match s.margin { Some(e) => Some(spec_cvt_length(e.bottom)), None => old.margin_bottom })
    &&& new.margin_left == (match s.margin { Some(e) => Some(spec_cvt_length(e.left)), None => old.margin_left })
    &&& new.background == (match s.background { Some(Background::Color(c)) => match spec_resolve_color(c) { Some(t) => Some(t), None => old.background }, None => old.background })
    &&& new.opacity == (if s.opacity is Some { s.opacity } else { old.opacity })
    &&& new.border_top == (match s.border_widths { Some(e) => Some(spec_cvt_absolute(e.top)), None => old.border_top })
    &&& new.border_right == (match s.border_widths { Some(e) => Some(spec_cvt_absolute(e.right)), None => old.border_right })
    &&& new.border_bottom == (match s.border_widths { Some(e) => Some(spec_cvt_absolute(e.bottom)), None => old.border_bottom })
    &&& new.border_left == (match s.border_widths { Some(e) => Some(spec_cvt_absolute(e.left)), None => old.border_left })
    &&& new.border_color == (match s.border_color { Some(c) => spec_resolve_color(c), None => old.border_color })
    &&& new.corner_top_left == (match s.corner_radii { Some(c) => Some(spec_cvt_absolute(c.top_left)), None => old.corner_top_left })
    &&& new.corner_top_right == (match s.corner_radii { Some(c) => Some(spec_cvt_absolute(c.top_right)), None => old.corner_top_right })
    &&& new.corner_bottom_right == (match s.corner_radii { Some(c) => Some(spec_cvt_absolute(c.bottom_right)), None => old.corner_bottom_right })
    &&& new.corner_bottom_left == (match s.corner_radii { Some(c) => Some(spec_cvt_absolute(c.bottom_left)), None => old.corner_bottom_left })
    &&& (if s.box_shadows@.len() > 0 { new.box_shadow matches Some(v) && v@ == s.box_shadows@ } else { new.box_shadow == old.box_shadow })
    &&& new.font_size == (match s.text_size { Some(v) => Some(spec_cvt_absolute(v)), None => old.font_size })
    &&& new.text_color == (match s.text_color { Some(c) => spec_resolve_color(c), None => old.text_color })
    &&& new.font_weight == (match s.font_weight { Some(v) => Some(spec_font_weight_value(v)), None => old.font_weight })
    &&& new.font_style == (if s.font_style is Some { s.font_style } else { old.font_style })
    &&& new.font_family == (if s.font_family is Some { s.font_family } else { old.font_family })
    &&& new.overflow_x == (if s.overflow_x is Some { s.overflow_x } else { old.overflow_x })
    &&& new.overflow_y == (if s.overflow_y is Some { s.overflow_y } else { old.overflow_y })
    &&& new.mouse_cursor == (match s.cursor { Some(v) => Some(spec_host_cursor(v)), None => old.mouse_cursor })
}

/// `new` where it is set, else `old`.
fn or_keep<T: Copy>(new: Option<T>, old: Option<T>) -> (r: Option<T>)
    ensures
        r == (if new is Some { new } else { old }),
{
    match new {
        Some(v) => Some(v),
        None => old,
    }
}

fn length_or_keep(new: Option<Length>, old: Option<HostLength>) -> (r: Option<HostLength>)
    ensures
        r == (match new { Some(v) => Some(spec_cvt_length(v)), None => old }),
{
    match new {
        Some(v) => Some(cvt_length(v)),
        None => old,
    }
}

fn definite_length_or_keep(new: Option<DefiniteLength>, old: Option<HostLength>) -> (r: Option<HostLength>)
    ensures
        r == (match new { Some(v) => Some(HostLength::Definite(spec_cvt_definite(v))), None => old }),
{
    match new {
        Some(v) => Some(HostLength::Definite(cvt_definite(v))),
        None => old,
    }
}

fn absolute_or_keep(new: Option<AbsoluteLength>, old: Option<HostAbsolute>) -> (r: Option<HostAbsolute>)
    ensures
        r == (match new { Some(v) => Some(spec_cvt_absolute(v)), None => old }),
{
    match new {
        Some(v) => Some(cvt_absolute(v)),
        None => old,
    }
}

fn gap_or_keep(axis: Option<DefiniteLength>, both: Option<DefiniteLength>, old: Option<HostDefinite>) -> (r: Option<HostDefinite>)
    ensures
        r == (match axis {
            Some(v) => Some(spec_cvt_definite(v)),
            None => match both { Some(g) => Some(spec_cvt_definite(g)), None => old },
        }),
{
    match axis {
        Some(v) => Some(cvt_definite(v)),
        None => match both {
            Some(g) => Some(cvt_definite(g)),
            None => old,
        },
    }
}

fn color_or_keep(new: Option<Color>, old: Option<ThemeColor>) -> (r: Option<ThemeColor>)
    ensures
        r == (match new { Some(c) => spec_resolve_color(c), None => old }),
{
    match new {
        Some(c) => resolve_color(c),
        None => old,
    }
}

fn background_or_keep(new: Option<Background>, old: Option<ThemeColor>) -> (r: Option<ThemeColor>)
    ensures
        r == (match new {
            Some(Background::Color(c)) => match spec_resolve_color(c) { Some(t) => Some(t), None => old },
            None => old,
        }),
{
    match new {
        Some(Background::Color(c)) => match resolve_color(c) {
            Some(t) => Some(t),
            None => old,
        },
        None => old,
    }
}

/// Applies the style `s` to a host element's style.
pub fn apply_style(host: &mut HostStyle, s: &Style)
    ensures
        style_applied(*old(host), *s, *final(host)),
{
    let padding = match s.padding { Some(e) => Some(cvt_edges_definite(e)), None => None };
    let margin = match s.margin { Some(e) => Some(cvt_edges_length(e)), None => None };
    let borders = match s.border_widths { Some(e) => Some(cvt_edges_absolute(e)), None => None };
    let corners = match s.corner_radii { Some(c) => Some(cvt_corners(c)), None => None };
    let box_shadow = if s.box_shadows.len() > 0 { Some(copy_shadows(&s.box_shadows)) } else { host.box_shadow.take() };
    let font_family = match &s.font_family { Some(f) => Some(f.clone()), None => host.font_family.take() };
    let updated = HostStyle {
        display: or_keep(s.display, host.display),
        position: or_keep(s.position, host.position),
        visibility: or_keep(s.visibility, host.visibility),
        width: length_or_keep(s.width, host.width),
        height: length_or_keep(s.height, host.height),
        min_width: definite_length_or_keep(s.min_width, host.min_width),
        min_height: definite_length_or_keep(s.min_height, host.min_height),
        max_width: definite_length_or_keep(s.max_width, host.max_width),
        max_height: definite_length_or_keep(s.max_height, host.max_height),
        inset_top: length_or_keep(s.top, host.inset_top),
        inset_right: length_or_keep(s.right, host.inset_right),
        inset_bottom: length_or_keep(s.bottom, host.inset_bottom),
        inset_left: length_or_keep(s.left, host.inset_left),
        flex_direction: or_keep(s.flex_direction, host.flex_direction),
        flex_wrap: or_keep(s.flex_wrap, host.flex_wrap),
        align_items: or_keep(s.align_items, host.align_items),
        align_content: or_keep(s.align_content, host.align_content),
        justify_content: match s.justify_content { Some(v) => Some(cvt_justify_content(v)), None => host.justify_content },
        gap_width: gap_or_keep(s.column_gap, s.gap, host.gap_width),
        gap_height: gap_or_keep(s.row_gap, s.gap, host.gap_height),
        flex_grow: or_keep(s.flex_grow, host.flex_grow),
        flex_shrink: or_keep(s.flex_shrink, host.flex_shrink),
        flex_basis: length_or_keep(s.flex_basis, host.flex_basis),
        align_self: or_keep(s.align_self, host.align_self),
        padding_top: match padding { Some(e) => Some(e.top), None => host.padding_top },
        padding_right: match padding { Some(e) => Some(e.right), None => host.padding_right },
        padding_bottom: match padding { Some(e) => Some(e.bottom), None => host.padding_bottom },
        padding_left: match padding { Some(e) => Some(e.left), None => host.padding_left },
        margin_top: match margin { Some(e) => Some(e.top), None => host.margin_top },
        margin_right: match margin { Some(e) => Some(e.right), None => host.margin_right },
        margin_bottom: match margin { Some(e) => Some(e.bottom), None => host.margin_bottom },
        margin_left: match margin { Some(e) => Some(e.left), None => host.margin_left },
        background: background_or_keep(s.background, host.background),
        opacity: or_keep(s.opacity, host.opacity),
        border_top: match borders { Some(e) => Some(e.top), None => host.border_top },
        border_right: match borders { Some(e) => Some(e.right), None => host.border_right },
        border_bottom: match borders { Some(e) => Some(e.bottom), None => host.border_bottom },
        border_left: match borders { Some(e) => Some(e.left), None => host.border_left },
        border_color: color_or_keep(s.border_color, host.border_color),
        corner_top_left: match corners { Some(c) => Some(c.top_left), None => host.corner_top_left },
        corner_top_right: match corners { Some(c) => Some(c.top_right), None => host.corner_top_right },
        corner_bottom_right: match corners { Some(c) => Some(c.bottom_right), None => host.corner_bottom_right },
        corner_bottom_left: match corners { Some(c) => Some(c.bottom_left), None => host.corner_bottom_left },
        box_shadow: box_shadow,
        font_size: absolute_or_keep(s.text_size, host.font_size),
        text_color: color_or_keep(s.text_color, host.text_color),
        font_weight: match s.font_weight { Some(v) => Some(font_weight_value(v)), None => host.font_weight },
        font_style: or_keep(s.font_style, host.font_style),
        font_family: font_family,
        overflow_x: or_keep(s.overflow_x, host.overflow_x),
        overflow_y: or_keep(s.overflow_y, host.overflow_y),
        mouse_cursor: match s.cursor { Some(v) => Some(host_cursor(v)), None => host.mouse_cursor },
    };
    *host = updated;
}

/// The host's mouse buttons.
#[derive(Clone, Copy, PartialEq, Eq, Structural, Debug)]
pub enum HostMouseButton {
    Left,
    Right,
    Middle,
    Back,
    Forward,
}

/// Modifier keys held during a host input event.
#[derive(Clone, Copy, PartialEq, Eq, Structural, Debug)]
pub struct HostModifiers {
    pub shift: bool,
    pub control: bool,
    pub alt: bool,
    pub platform: bool,
}

/// A click as the host reports it: by the mouse, with where the button went
/// down, or by the keyboard.
#[derive(Clone, Copy, PartialEq, Eq, Structural, Debug)]
pub enum HostClick {
    Mouse { x: F32Bits, y: F32Bits, button: HostMouseButton, click_count: usize, modifiers: HostModifiers },
    Keyboard,
}

/// The wire number of a mouse button: 0 left, 1 right, 2 middle; the other
/// buttons are reported as left.
pub open spec fn spec_button_number(b: HostMouseButton) -> u8 {
    match b {
        HostMouseButton::Left => 0,
        HostMouseButton::Right => 1,
        HostMouseButton::Middle => 2,
        _ => 0,
    }
}

/// What an extension learns of a click: for a mouse click, where the button
/// went down, which button, the click count and the modifiers; a keyboard
/// click is reported as a single left click at the origin with no modifiers.
pub open spec fn spec_mouse_data_from_click(click: HostClick) -> MouseEventData {
    match click {
        HostClick::Mouse { x, y, button, click_count, modifiers } => MouseEventData {
            x,
            y,
            button: spec_button_number(button),
            click_count: click_count as u32,
            shift: modifiers.shift,
            ctrl: modifiers.control,
            alt: modifiers.alt,
            meta: modifiers.platform,
        },
        HostClick::Keyboard => MouseEventData {
            x: F32_0,
            y: F32_0,
            button: 0,
            click_count: 1,
            shift: false,
            ctrl: false,
            alt: false,
            meta: false,
        },
    }
}

/// The mouse data of a click.
pub fn mouse_data_from_click(click: &HostClick) -> (r: MouseEventData)
    ensures
        r == spec_mouse_data_from_click(*click),
{
    match *click {
        HostClick::Mouse { x, y, button, click_count, modifiers } => {
            let b: u8 = match button {
                HostMouseButton::Left => 0,
                HostMouseButton::Right => 1,
                HostMouseButton::Middle => 2,
                _ => 0,
            };
            MouseEventData {
                x,
                y,
                button: b,
                click_count: click_count as u32,
                shift: modifiers.shift,
                ctrl: modifiers.control,
                alt: modifiers.alt,
                meta: modifiers.platform,
            }
        },
        HostClick::Keyboard => MouseEventData {
            x: F32_0,
            y: F32_0,
            button: 0,
            click_count: 1,
            shift: false,
            ctrl: false,
            alt: false,
            meta: false,
        },
    }
}

/// What a click on an element that listens for clicks and/or double clicks
/// is reported as: a double click when double clicks are wanted and the
/// click count is at least two, else a click when clicks are wanted, else
/// nothing.
pub open spec fn spec_click_event(single: bool, double: bool, click: HostClick) -> Option<UiEvent> {
    let data = spec_mouse_data_from_click(click);
    if double && data.click_count >= 2 {
        Some(UiEvent::DoubleClicked(data))
    } else if single {
        Some(UiEvent::Clicked(data))
    } else {
        None
    }
}

/// The event a click produces on an element with the given click flags.
pub fn click_event(single: bool, double: bool, click: &HostClick) -> (r: Option<UiEvent>)
    ensures
        r == spec_click_event(single, double, *click),
{
    let data = mouse_data_from_click(click);
    if double && data.click_count >= 2 {
        Some(UiEvent::DoubleClicked(data))
    } else if single {
        Some(UiEvent::Clicked(data))
    } else {
        None
    }
}

/// The event a secondary click produces.
pub fn right_click_event(click: &HostClick) -> (r: UiEvent)
    ensures
        r == UiEvent::RightClicked(spec_mouse_data_from_click(*click)),
{
    UiEvent::RightClicked(mouse_data_from_click(click))
}

/// The event the pointer entering (`true`) or leaving an element produces.
pub fn hover_event(hovered: bool) -> (r: UiEvent)
    ensures
        r == (if hovered { UiEvent::HoverStart } else { UiEvent::HoverEnd }),
{
    if hovered {
        UiEvent::HoverStart
    } else {
        UiEvent::HoverEnd
    }
}

/// Mouse data of a press, release or move: the pointer position and the
/// modifiers, with button 0 and no click count.
pub open spec fn spec_pointer_data(x: F32Bits, y: F32Bits, m: HostModifiers) -> MouseEventData {
    MouseEventData {
        x,
        y,
        button: 0,
        click_count: 0,
        shift: m.shift,
        ctrl: m.control,
        alt: m.alt,
        meta: m.platform,
    }
}

/// The mouse data of a press, release or move of the pointer.
pub fn pointer_event_data(x: F32Bits, y: F32Bits, modifiers: HostModifiers) -> (r: MouseEventData)
    ensures
        r == spec_pointer_data(x, y, modifiers),
{
    MouseEventData {
        x,
        y,
        button: 0,
        click_count: 0,
        shift: modifiers.shift,
        ctrl: modifiers.control,
        alt: modifiers.alt,
        meta: modifiers.platform,
    }
}

/// The key data of a key press or release; the host does not report key
/// repeat, so `repeat` is always false.
pub fn key_event_data(key: String, modifiers: HostModifiers) -> (r: KeyEventData)
    ensures
        r.key == key,
        r.shift == modifiers.shift,
        r.ctrl == modifiers.control,
        r.alt == modifiers.alt,
        r.meta == modifiers.platform,
        !r.repeat,
{
    KeyEventData {
        key,
        shift: modifiers.shift,
        ctrl: modifiers.control,
        alt: modifiers.alt,
        meta: modifiers.platform,
        repeat: false,
    }
}

/// The scroll data of a wheel event, its delta already in pixels.
pub fn scroll_event_data(delta_x: F32Bits, delta_y: F32Bits, precise: bool) -> (r: ScrollEventData)
    ensures
        r == (ScrollEventData { delta_x, delta_y, precise }),
{
    ScrollEventData { delta_x, delta_y, precise }
}

/// A listener the renderer attaches to a host element. Each one, when its
/// host event fires, reports one event for the element's id.
#[derive(Clone, Copy, PartialEq, Eq, Structural, Debug)]
pub enum HostListener {
    /// A primary click, reported as a click or a double click (see `click_event`).
    Click { single: bool, double: bool },
    /// A secondary click, reported as a right click.
    AuxClick,
    /// Pointer entering or leaving, reported as hover start or end.
    Hover,
    /// Left button pressed, reported as mouse down.
    MouseDown,
    /// Left button released, reported as mouse up.
    MouseUp,
    /// Pointer moved, reported as mouse moved.
    MouseMove,
    /// Scroll wheel or trackpad, reported as scroll wheel.
    ScrollWheel,
    /// Key pressed, reported as key down.
    KeyDown,
    /// Key released, reported as key up.
    KeyUp,
    /// Left button pressed, reported as drag started.
    DragStart,
    /// Text dropped on the element, reported as dropped.
    Drop,
}

/// The listeners for mouse events that the flags ask for, in the order they
/// are attached.
pub open spec fn spec_mouse_listeners(e: EventFlags) -> Seq<HostListener> {
    spec_opt(e.on_click || e.on_double_click, HostListener::Click { single: e.on_click, double: e.on_double_click })
        + spec_opt(e.on_right_click, HostListener::AuxClick)
        + spec_opt(e.on_hover, HostListener::Hover)
        + spec_opt(e.on_mouse_down, HostListener::MouseDown)
        + spec_opt(e.on_mouse_up, HostListener::MouseUp)
        + spec_opt(e.on_mouse_move, HostListener::MouseMove)
        + spec_opt(e.on_scroll_wheel, HostListener::ScrollWheel)
}

/// The listeners for keyboard events that the flags ask for.
pub open spec fn spec_keyboard_listeners(e: EventFlags) -> Seq<HostListener> {
    spec_opt(e.on_key_down, HostListener::KeyDown) + spec_opt(e.on_key_up, HostListener::KeyUp)
}

/// The listeners for drag and drop that the flags ask for. A drag start is
/// reported on every press of the left button of an element that asks for
/// drags, whether or not it also reports the press itself.
pub open spec fn spec_drag_drop_listeners(e: EventFlags) -> Seq<HostListener> {
    spec_opt(e.on_drag, HostListener::DragStart) + spec_opt(e.on_drop, HostListener::Drop)
}

/// All listeners of a container, in the order they are attached.
pub open spec fn spec_div_listeners(e: EventFlags) -> Seq<HostListener> {
    spec_mouse_listeners(e) + spec_keyboard_listeners(e) + spec_drag_drop_listeners(e)
}

/// One listener when `cond` holds, else none.
pub open spec fn spec_opt(cond: bool, l: HostListener) -> Seq<HostListener> {
    if cond { seq![l] } else { seq![] }
}

fn push_if(v: &mut Vec<HostListener>, cond: bool, l: HostListener, Ghost(base): Ghost<Seq<HostListener>>, Ghost(acc): Ghost<Seq<HostListener>>)
    requires
        old(v)@ == base + acc,
    ensures
        final(v)@ == base + (acc + spec_opt(cond, l)),
{
    if cond {
        v.push(l);
    }
    assert(v@ =~= base + (acc + spec_opt(cond, l)));
}

/// Appends the mouse listeners that the flags ask for: click (and double
/// click), secondary click, hover, press, release, move and scroll.
pub fn attach_mouse_event_handlers(listeners: &mut Vec<HostListener>, events: &EventFlags)
    ensures
        final(listeners)@ == old(listeners)@ + spec_mouse_listeners(*events),
{
    let e = *events;
    let ghost base = listeners@;
    assert(listeners@ =~= base + seq![]);
    let ghost a0: Seq<HostListener> = seq![];
    push_if(listeners, e.on_click || e.on_double_click, HostListener::Click { single: e.on_click, double: e.on_double_click }, Ghost(base), Ghost(a0));
    let ghost a1 = a0 + spec_opt(e.on_click || e.on_double_click, HostListener::Click { single: e.on_click, double: e.on_double_click });
    push_if(listeners, e.on_right_click, HostListener::AuxClick, Ghost(base), Ghost(a1));
    let ghost a2 = a1 + spec_opt(e.on_right_click, HostListener::AuxClick);
    push_if(listeners, e.on_hover, HostListener::Hover, Ghost(base), Ghost(a2));
    let ghost a3 = a2 + spec_opt(e.on_hover, HostListener::Hover);
    push_if(listeners, e.on_mouse_down, HostListener::MouseDown, Ghost(base), Ghost(a3));
    let ghost a4 = a3 + spec_opt(e.on_mouse_down, HostListener::MouseDown);
    push_if(listeners, e.on_mouse_up, HostListener::MouseUp, Ghost(base), Ghost(a4));
    let ghost a5 = a4 + spec_opt(e.on_mouse_up, HostListener::MouseUp);
    push_if(listeners, e.on_mouse_move, HostListener::MouseMove, Ghost(base), Ghost(a5));
    let ghost a6 = a5 + spec_opt(e.on_mouse_move, HostListener::MouseMove);
    push_if(listeners, e.on_scroll_wheel, HostListener::ScrollWheel, Ghost(base), Ghost(a6));
    assert(a0 + spec_opt(e.on_click || e.on_double_click, HostListener::Click { single: e.on_click, double: e.on_double_click }) =~= spec_opt(e.on_click || e.on_double_click, HostListener::Click { single: e.on_click, double: e.on_double_click }));
}

/// Appends the keyboard listeners that the flags ask for.
pub fn attach_keyboard_event_handlers(listeners: &mut Vec<HostListener>, events: &EventFlags)
    ensures
        final(listeners)@ == old(listeners)@ + spec_keyboard_listeners(*events),
{
    let e = *events;
    let ghost base = listeners@;
    assert(listeners@ =~= base + seq![]);
    let ghost a0: Seq<HostListener> = seq![];
    push_if(listeners, e.on_key_down, HostListener::KeyDown, Ghost(base), Ghost(a0));
    let ghost a1 = a0 + spec_opt(e.on_key_down, HostListener::KeyDown);
    push_if(listeners, e.on_key_up, HostListener::KeyUp, Ghost(base), Ghost(a1));
    assert(a1 =~= spec_opt(e.on_key_down, HostListener::KeyDown));
}

/// Appends the drag and drop listeners that the flags ask for.
pub fn attach_drag_drop_handlers(listeners: &mut Vec<HostListener>, events: &EventFlags)
    ensures
        final(listeners)@ == old(listeners)@ + spec_drag_drop_listeners(*events),
{
    let e = *events;
    let ghost base = listeners@;
    assert(listeners@ =~= base + seq![]);
    let ghost a0: Seq<HostListener> = seq![];
    push_if(listeners, e.on_drag, HostListener::DragStart, Ghost(base), Ghost(a0));
    let ghost a1 = a0 + spec_opt(e.on_drag, HostListener::DragStart);
    push_if(listeners, e.on_drop, HostListener::Drop, Ghost(base), Ghost(a1));
    assert(a1 =~= spec_opt(e.on_drag, HostListener::DragStart));
}

/// Whether `handles` holds `id`.
pub fn contains_u32(handles: &Vec<u32>, id: u32) -> (r: bool)
    ensures
        r == handles@.contains(id),
{
    let mut i: usize = 0;
    while i < handles.len()
        invariant
            i <= handles@.len(),
            forall|k: int| 0 <= k < i ==> handles@[k] != id,
        decreases handles@.len() - i,
    {
        if handles[i] == id {
            return true;
        }
        i += 1;
    }
    false
}

/// The focus handle an element tracks: the one it names, when the host has
/// created a handle of that id; else none.
pub open spec fn spec_tracked_focus(focus_handle_id: Option<u32>, handles: Seq<u32>) -> Option<u32> {
    match focus_handle_id {
        Some(h) => if handles.contains(h) { Some(h) } else { None },
        None => None,
    }
}

/// The focus handle that an element tracks for keyboard navigation.
pub fn attach_focus_handler(focus_handle_id: Option<u32>, handles: &Vec<u32>) -> (r: Option<u32>)
    ensures
        r == spec_tracked_focus(focus_handle_id, handles@),
{
    match focus_handle_id {
        Some(h) => if contains_u32(handles, h) {
            Some(h)
        } else {
            None
        },
        None => None,
    }
}

/// How the host identifies an element across frames: by the name the
/// extension gave it, or by a number.
#[derive(Clone, Debug)]
pub enum ElementKey {
    Name(String),
    Integer(u64),
}

/// A rendered container.
#[derive(Debug)]
pub struct HostDiv {
    pub key: ElementKey,
    pub style: HostStyle,
    /// The id that events of this element are reported for (empty when the
    /// element has none).
    pub source_id: String,
    pub listeners: Vec<HostListener>,
    /// The focus handle the element tracks.
    pub focus: Option<u32>,
    pub tooltip: Option<String>,
    pub children: Vec<HostElement>,
}

/// A rendered element.
#[derive(Debug)]
pub enum HostElement {
    /// An empty container, for a missing node.
    Empty,
    Div(HostDiv),
    Text { style: HostStyle, content: String },
    Svg { style: HostStyle, icon_path: String, color: Option<ThemeColor> },
    Img { key: ElementKey, style: HostStyle, source_id: String, listeners: Vec<HostListener>, src: String },
    /// A text input: the host's editable field when one exists for the id
    /// (`text` is `None`), else the value, or the placeholder when the
    /// value is empty, as plain text.
    Input { key: ElementKey, style: HostStyle, text: Option<String> },
    /// A notice shown in place of an element the host cannot draw.
    Placeholder(String),
}

/// The key of a container: its id, or else its index in the node list.
pub open spec fn spec_div_key(id: Option<String>, idx: int) -> ElementKey {
    match id {
        Some(s) => ElementKey::Name(s),
        None => ElementKey::Integer(idx as u64),
    }
}

/// The id events are reported for: the element's id, or the empty string.
pub open spec fn spec_source_id(id: Option<String>) -> Seq<char> {
    match id {
        Some(s) => s@,
        None => Seq::empty(),
    }
}

/// Where an icon's SVG is read from: `icons/<name>.svg` for a named icon,
/// the given path otherwise.
pub open spec fn spec_icon_path(source: IconSource) -> Seq<char> {
    match source {
        IconSource::Named(name) => "icons/"@ + name@ + ".svg"@,
        IconSource::Path(p) => p@,
    }
}

/// The style an input starts from before its own style is applied: a text
/// cursor, and its content laid out in a row, centered across.
pub open spec fn input_base_style() -> HostStyle {
    HostStyle {
        mouse_cursor: Some(HostCursor::IBeam),
        display: Some(DisplayType::Flex),
        align_items: Some(AlignItems::Center),
        ..default_host_style()
    }
}

/// The text color after a style is applied.
pub open spec fn spec_text_color_after(old: HostStyle, s: Style) -> Option<ThemeColor> {
    match s.text_color {
        Some(c) => spec_resolve_color(c),
        None => old.text_color,
    }
}

/// The display after a style is applied.
pub open spec fn spec_display_after(old: HostStyle, s: Style) -> Option<DisplayType> {
    if s.display is Some { s.display } else { old.display }
}

/// The notice shown for a uniform list.
pub open spec fn uniform_list_notice() -> Seq<char> {
    "UniformList not yet supported with focus handles"@
}

/// `e` is what node `idx` of `nodes` renders to, given the ids of the inputs
/// for which the host holds an editable field and the ids of the focus
/// handles it has created. A node index outside the list renders as an empty
/// container; a container's children render in order.
pub open spec fn renders(
    nodes: Seq<UiNode>,
    idx: int,
    fields: Seq<Seq<char>>,
    handles: Seq<u32>,
    e: HostElement,
) -> bool
    decreases e,
{
    if !(0 <= idx < nodes.len()) {
        e is Empty
    } else {
        match nodes[idx] {
            UiNode::Div(n) => match e {
                HostElement::Div(d) => {
                    &&& d.key == spec_div_key(n.id, idx)
                    &&& style_applied(default_host_style(), n.style, d.style)
                    &&& d.source_id@ == spec_source_id(n.id)
                    &&& d.listeners@ == spec_div_listeners(n.events)
                    &&& d.focus == spec_tracked_focus(n.focus_handle_id, handles)
                    &&& d.tooltip == n.tooltip
                    &&& renders_list(nodes, n.children@, fields, handles, d.children@)
                },
                _ => false,
            },
            UiNode::Text(n) => match e {
                HostElement::Text { style, content } => style_applied(default_host_style(), n.style, style)
                    && content == n.content,
                _ => false,
            },
            UiNode::Svg(n) => match e {
                HostElement::Svg { style, icon_path, color } => {
                    &&& style_applied(default_host_style(), n.style, style)
                    &&& icon_path@ == spec_icon_path(n.source)
                    &&& color == (match n.color { Some(c) => spec_resolve_color(c), None => None })
                },
                _ => false,
            },
            UiNode::Img(n) => match e {
                HostElement::Img { key, style, source_id, listeners, src } => {
                    &&& key == (match n.id { Some(s) => ElementKey::Name(s), None => ElementKey::Integer(0) })
                    &&& style_applied(default_host_style(), n.style, style)
                    &&& source_id@ == spec_source_id(n.id)
                    &&& listeners@ == spec_opt(n.events.on_click, HostListener::Click { single: true, double: false })
                    &&& src == n.src
                },
                _ => false,
            },
            UiNode::Input(n) => match e {
                HostElement::Input { key, style, text } => {
                    &&& key == ElementKey::Name(n.id)
                    &&& if fields.contains(n.id@) {
                        &&& text is None
                        &&& style.display == Some(DisplayType::Flex)
                        &&& style_applied(default_host_style(), n.style,
                            HostStyle { display: spec_display_after(default_host_style(), n.style), ..style })
                    } else {
                        &&& text matches Some(t) && t@ == (if n.value@.len() == 0 {
                            match n.placeholder { Some(p) => p@, None => Seq::empty() }
                        } else {
                            n.value@
                        })
                        &&& style.text_color == Some(if n.value@.len() == 0 {
                            ThemeColor::TextPlaceholder
                        } else {
                            ThemeColor::Text
                        })
                        &&& style_applied(input_base_style(), n.style,
                            HostStyle { text_color: spec_text_color_after(input_base_style(), n.style), ..style })
                    }
                },
                _ => false,
            },
            UiNode::UniformList(_) => match e {
                HostElement::Placeholder(t) => t@ == uniform_list_notice(),
                _ => false,
            },
        }
    }
}

/// `es` are what the nodes at `idxs` render to, in order.
pub open spec fn renders_list(
    nodes: Seq<UiNode>,
    idxs: Seq<u32>,
    fields: Seq<Seq<char>>,
    handles: Seq<u32>,
    es: Seq<HostElement>,
) -> bool
    decreases es,
{
    if es.len() == 0 {
        idxs.len() == 0
    } else {
        &&& idxs.len() == es.len()
        &&& renders_list(nodes, idxs.drop_last(), fields, handles, es.drop_last())
        &&& renders(nodes, idxs.last() as int, fields, handles, es.last())
    }
}

/// Whether `ids` holds a string equal to `id`.
fn contains_id(ids: &Vec<String>, id: &str) -> (r: bool)
    ensures
        r == crate::json::string_views(ids@).contains(id@),
{
    let ghost views = crate::json::string_views(ids@);
    let mut i: usize = 0;
    while i < ids.len()
        invariant
            i <= ids@.len(),
            views == crate::json::string_views(ids@),
            forall|k: int| 0 <= k < i ==> views[k] != id@,
        decreases ids@.len() - i,
    {
        if crate::text::str_eq(ids[i].as_str(), id) {
            assert(views[i as int] == id@);
            return true;
        }
        i += 1;
    }
    assert forall|k: int| 0 <= k < views.len() implies views[k] != id@ by {}
    false
}

/// The source id of an element: its id, or the empty string.
fn source_id_of(id: &Option<String>) -> (r: String)
    ensures
        r@ == spec_source_id(*id),
{
    match id {
        Some(s) => s.clone(),
        None => String::new(),
    }
}

/// Where an icon's SVG is read from.
pub fn icon_path(source: &IconSource) -> (r: String)
    ensures
        r@ == spec_icon_path(*source),
{
    match source {
        IconSource::Named(name) => {
            let head = concat_str("icons/", name.as_str());
            concat_str(head.as_str(), ".svg")
        },
        IconSource::Path(p) => p.clone(),
    }
}

/// Every chain of child links from node `idx` ends within `depth` nodes:
/// at an index past the end of the list, or at a node that is not a
/// container. A chain that never revisits a node passes at most once through
/// each node of the list, so with a depth of one more than the list's length
/// this fails only where the links from `idx` reach a cycle.
pub open spec fn links_end_within(nodes: Seq<UiNode>, idx: int, depth: nat) -> bool
    decreases depth,
{
    depth > 0 && (!(0 <= idx < nodes.len()) || !(nodes[idx] is Div) || forall|j: int|
        #![trigger nodes[idx]->Div_0.children@[j]]
        0 <= j < nodes[idx]->Div_0.children@.len() ==> links_end_within(
            nodes,
            nodes[idx]->Div_0.children@[j] as int,
            (depth - 1) as nat,
        ))
}

/// A bound that holds with a depth holds with any larger one.
pub proof fn lemma_links_end_within_larger(nodes: Seq<UiNode>, idx: int, d: nat, d2: nat)
    requires
        links_end_within(nodes, idx, d),
        d <= d2,
    ensures
        links_end_within(nodes, idx, d2),
    decreases d,
{
    if 0 <= idx < nodes.len() && nodes[idx] is Div {
        assert forall|j: int| 0 <= j < nodes[idx]->Div_0.children@.len() implies links_end_within(
            nodes,
            #[trigger] nodes[idx]->Div_0.children@[j] as int,
            (d2 - 1) as nat,
        ) by {
            lemma_links_end_within_larger(nodes, nodes[idx]->Div_0.children@[j] as int, (d - 1) as nat, (d2 - 1) as nat);
        }
    }
}

/// In a list whose links all point forward, the chains from node `idx` end
/// within one more node than there are from `idx` to the end.
pub proof fn lemma_forward_links_end(nodes: Seq<UiNode>, idx: int)
    requires
        children_forward(nodes, 0, nodes.len() as int),
        0 <= idx,
    ensures
        links_end_within(nodes, idx, if idx < nodes.len() { (nodes.len() - idx + 1) as nat } else { 1 }),
    decreases nodes.len() - idx,
{
    if idx < nodes.len() && nodes[idx] is Div {
        let d = (nodes.len() - idx + 1) as nat;
        assert forall|j: int| 0 <= j < nodes[idx]->Div_0.children@.len() implies links_end_within(
            nodes,
            #[trigger] nodes[idx]->Div_0.children@[j] as int,
            (d - 1) as nat,
        ) by {
            let c = nodes[idx]->Div_0.children@[j] as int;
            lemma_forward_links_end(nodes, c);
            lemma_links_end_within_larger(nodes, c, (nodes.len() - c + 1) as nat, (d - 1) as nat);
        }
    }
}

/// Renders node `idx` of a flat node list, and its subtree, following child
/// links at most `depth` nodes deep; an index past the end renders as an
/// empty container. The result is the node's rendering whenever the links
/// from `idx` end within `depth` nodes.
pub fn render_node(nodes: &Vec<UiNode>, idx: u32, fields: &Vec<String>, handles: &Vec<u32>, depth: usize) -> (r: HostElement)
    ensures
        links_end_within(nodes@, idx as int, depth as nat) ==> renders(nodes@, idx as int, crate::json::string_views(fields@), handles@, r),
    decreases depth, 1int,
{
    if depth == 0 || idx as usize >= nodes.len() {
        return HostElement::Empty;
    }
    match &nodes[idx as usize] {
        UiNode::Div(n) => render_div(nodes, n, idx, fields, handles, depth),
        UiNode::Text(n) => render_text(n),
        UiNode::Svg(n) => render_svg(n),
        UiNode::Img(n) => render_img(n),
        UiNode::Input(n) => render_input(n, fields),
        UiNode::UniformList(n) => render_uniform_list(n),
    }
}

/// Renders the container at `node_idx`: keyed by its id, or by its index
/// when it has none, styled, with its listeners, focus tracking and tooltip,
/// and with its children rendered in order, each at most `depth - 1` deep.
pub fn render_div(
    nodes: &Vec<UiNode>,
    n: &DivNode,
    node_idx: u32,
    fields: &Vec<String>,
    handles: &Vec<u32>,
    depth: usize,
) -> (r: HostElement)
    requires
        node_idx < nodes@.len(),
        nodes@[node_idx as int] == UiNode::Div(*n),
        depth > 0,
    ensures
        links_end_within(nodes@, node_idx as int, depth as nat) ==> renders(nodes@, node_idx as int, crate::json::string_views(fields@), handles@, r),
    decreases depth, 0int,
{
    let ghost views = crate::json::string_views(fields@);
    let ghost ends = links_end_within(nodes@, node_idx as int, depth as nat);
    let key = match &n.id {
        Some(s) => ElementKey::Name(s.clone()),
        None => ElementKey::Integer(node_idx as u64),
    };
    let mut style = HostStyle::new();
    apply_style(&mut style, &n.style);
    let mut children: Vec<HostElement> = Vec::new();
    let mut i: usize = 0;
    while i < n.children.len()
        invariant
            0 <= node_idx < nodes@.len(),
            nodes@[node_idx as int] == UiNode::Div(*n),
            depth > 0,
            ends == links_end_within(nodes@, node_idx as int, depth as nat),
            i <= n.children@.len(),
            ends ==> renders_list(nodes@, n.children@.take(i as int), views, handles@, children@),
            views == crate::json::string_views(fields@),
        decreases n.children@.len() - i,
    {
        let c = n.children[i];
        assert(nodes@[node_idx as int]->Div_0.children@[i as int] == c);
        let child = render_node(nodes, c, fields, handles, depth - 1);
        let ghost before = children@;
        children.push(child);
        proof {
            let t = n.children@.take(i + 1);
            assert(t.drop_last() =~= n.children@.take(i as int));
            assert(t.last() == c);
            assert(children@.drop_last() =~= before);
            assert(children@.last() == child);
        }
        i += 1;
    }
    assert(n.children@.take(i as int) =~= n.children@);
    let mut listeners: Vec<HostListener> = Vec::new();
    attach_mouse_event_handlers(&mut listeners, &n.events);
    attach_keyboard_event_handlers(&mut listeners, &n.events);
    attach_drag_drop_handlers(&mut listeners, &n.events);
    assert(listeners@ =~= spec_div_listeners(n.events));
    HostElement::Div(HostDiv {
        key,
        style,
        source_id: source_id_of(&n.id),
        listeners,
        focus: attach_focus_handler(n.focus_handle_id, handles),
        tooltip: n.tooltip.clone(),
        children,
    })
}

/// Renders a text node: its content with its style.
pub fn render_text(n: &TextNode) -> (r: HostElement)
    ensures
        renders(seq![UiNode::Text(*n)], 0, seq![], seq![], r),
{
    let mut style = HostStyle::new();
    apply_style(&mut style, &n.style);
    HostElement::Text { style, content: n.content.clone() }
}

/// Renders an icon: the SVG file it names, styled, tinted with its colour
/// when it has one that resolves.
pub fn render_svg(n: &SvgNode) -> (r: HostElement)
    ensures
        renders(seq![UiNode::Svg(*n)], 0, seq![], seq![], r),
{
    let mut style = HostStyle::new();
    apply_style(&mut style, &n.style);
    let color = match n.color {
        Some(c) => resolve_color(c),
        None => None,
    };
    HostElement::Svg { style, icon_path: icon_path(&n.source), color }
}

/// Renders an image: keyed by its id (or 0), styled, listening for single
/// clicks when it asked for them.
pub fn render_img(n: &ImgNode) -> (r: HostElement)
    ensures
        renders(seq![UiNode::Img(*n)], 0, seq![], seq![], r),
{
    let key = match &n.id {
        Some(s) => ElementKey::Name(s.clone()),
        None => ElementKey::Integer(0),
    };
    let mut style = HostStyle::new();
    apply_style(&mut style, &n.style);
    let mut listeners: Vec<HostListener> = Vec::new();
    if n.events.on_click {
        listeners.push(HostListener::Click { single: true, double: false });
    }
    assert(listeners@ =~= spec_opt(n.events.on_click, HostListener::Click { single: true, double: false }));
    HostElement::Img { key, style, source_id: source_id_of(&n.id), listeners, src: n.src.clone() }
}

/// Renders a virtualised list, which the host does not support yet: a
/// notice in its place.
pub fn render_uniform_list(n: &UniformListNode) -> (r: HostElement)
    ensures
        renders(seq![UiNode::UniformList(*n)], 0, seq![], seq![], r),
{
    let notice = "UniformList not yet supported with focus handles";
    proof {
        reveal_strlit("UniformList not yet supported with focus handles");
    }
    HostElement::Placeholder(notice.to_owned())
}

/// Renders a text input: the host's editable field when one exists for its
/// id, else its text.
pub fn render_input(n: &InputNode, fields: &Vec<String>) -> (r: HostElement)
    ensures
        renders(seq![UiNode::Input(*n)], 0, crate::json::string_views(fields@), seq![], r),
{
    let key = ElementKey::Name(n.id.clone());
    if contains_id(fields, n.id.as_str()) {
        let mut style = HostStyle::new();
        apply_style(&mut style, &n.style);
        let ghost applied = style;
        style.display = Some(DisplayType::Flex);
        assert(applied == HostStyle { display: spec_display_after(default_host_style(), n.style), ..style });
        HostElement::Input { key, style, text: None }
    } else {
        let mut style = HostStyle::new();
        style.mouse_cursor = Some(HostCursor::IBeam);
        style.display = Some(DisplayType::Flex);
        style.align_items = Some(AlignItems::Center);
        assert(style == input_base_style());
        apply_style(&mut style, &n.style);
        let ghost applied = style;
        let empty = n.value.as_str().is_empty();
        let text = if empty {
            match &n.placeholder {
                Some(p) => p.clone(),
                None => String::new(),
            }
        } else {
            n.value.clone()
        };
        style.text_color = Some(if empty { ThemeColor::TextPlaceholder } else { ThemeColor::Text });
        assert(applied == HostStyle { text_color: spec_text_color_after(input_base_style(), n.style), ..style });
        HostElement::Input { key, style, text: Some(text) }
    }
}

/// How deep rendering a tree follows child links: one more node than the
/// tree has, which every chain of links that reaches no cycle stays within.
pub open spec fn render_depth(len: nat) -> nat {
    if len < usize::MAX { len + 1 } else { len }
}

/// Renders a whole tree from its root; an empty tree renders as an empty
/// container, and so does a link past the end of the list. The result is
/// the tree's rendering whenever the chains of links from the root end
/// within `render_depth` nodes, that is whenever they reach no cycle; this
/// always holds for trees whose links all point forward, as those that
/// `render_tree` builds do.
pub fn render_ui_tree(tree: &UiTree, fields: &Vec<String>, handles: &Vec<u32>) -> (r: HostElement)
    ensures
        links_end_within(tree.nodes@, tree.root as int, render_depth(tree.nodes@.len())) ==>
            renders(tree.nodes@, tree.root as int, crate::json::string_views(fields@), handles@, r),
        children_forward(tree.nodes@, 0, tree.nodes@.len() as int) && tree.nodes@.len() < usize::MAX ==>
            renders(tree.nodes@, tree.root as int, crate::json::string_views(fields@), handles@, r),
{
    let len = tree.nodes.len();
    let depth = if len < usize::MAX { len + 1 } else { len };
    proof {
        if children_forward(tree.nodes@, 0, tree.nodes@.len() as int) && tree.nodes@.len() < usize::MAX {
            let root = tree.root as int;
            lemma_forward_links_end(tree.nodes@, root);
            let d0: nat = if root < tree.nodes@.len() { (tree.nodes@.len() - root + 1) as nat } else { 1 };
            lemma_links_end_within_larger(tree.nodes@, root, d0, depth as nat);
        }
    }
    render_node(&tree.nodes, tree.root, fields, handles, depth)
}

} // verus!
