//! UI events delivered by the host, and the registry that routes each event to
//! the handlers an extension attached to the element it came from.
use vstd::prelude::*;
use crate::elements::F32Bits;

verus! {

/// Pointer position, button and modifiers of a mouse event.
#[derive(Clone, Copy, PartialEq, Eq, Structural, Debug)]
pub struct MouseEventData {
    pub x: F32Bits,
    pub y: F32Bits,
    /// 0 = left, 1 = right, 2 = middle.
    pub button: u8,
    pub click_count: u32,
    pub shift: bool,
    pub ctrl: bool,
    pub alt: bool,
    pub meta: bool,
}

/// Key and modifiers of a keyboard event.
#[derive(Clone, Debug)]
pub struct KeyEventData {
    pub key: String,
    pub shift: bool,
    pub ctrl: bool,
    pub alt: bool,
    pub meta: bool,
    pub repeat: bool,
}

/// Scroll deltas of a wheel or trackpad event.
#[derive(Clone, Copy, PartialEq, Eq, Structural, Debug)]
pub struct ScrollEventData {
    pub delta_x: F32Bits,
    pub delta_y: F32Bits,
    /// Trackpad (precise) or wheel.
    pub precise: bool,
}

/// An interaction reported by the host for one element.
#[derive(Clone, Debug)]
pub enum UiEvent {
    Clicked(MouseEventData),
    DoubleClicked(MouseEventData),
    RightClicked(MouseEventData),
    MouseDown(MouseEventData),
    MouseUp(MouseEventData),
    MouseMoved(MouseEventData),
    HoverStart,
    HoverEnd,
    ScrollWheel(ScrollEventData),
    KeyDown(KeyEventData),
    KeyUp(KeyEventData),
    FocusGained,
    FocusLost,
    InputChanged(String),
    DragStarted,
    Dropped(String),
}

/// What a click handler receives.
#[derive(Clone, Copy, PartialEq, Eq, Structural, Debug)]
pub struct ClickEvent {
    pub x: F32Bits,
    pub y: F32Bits,
    pub button: u8,
}

/// What a key handler receives.
#[derive(Clone, Debug)]
pub struct KeyEvent {
    pub key: String,
    pub shift: bool,
    pub ctrl: bool,
    pub alt: bool,
    pub meta: bool,
}

/// What a scroll handler receives.
#[derive(Clone, Copy, PartialEq, Eq, Structural, Debug)]
pub struct ScrollEvent {
    pub delta_x: F32Bits,
    pub delta_y: F32Bits,
    pub precise: bool,
}

/// The kind of a registered handler, which decides the events it accepts.
#[derive(Clone, Copy, PartialEq, Eq, Structural, Debug)]
pub enum HandlerKind {
    Click,
    DoubleClick,
    RightClick,
    MouseMove,
    Hover,
    ScrollWheel,
    KeyDown,
    KeyUp,
    FocusGained,
    FocusLost,
    InputChanged,
    Drop,
}

/// The argument a handler is called with.
#[derive(Clone, Debug)]
pub enum HandlerArg {
    Click(ClickEvent),
    /// `true` when the pointer entered, `false` when it left.
    Hover(bool),
    /// Pointer coordinates.
    MouseMove(F32Bits, F32Bits),
    Scroll(ScrollEvent),
    Key(KeyEvent),
    /// Focus handlers take no argument.
    Unit,
    /// Input text, or a dropped payload.
    Text(String),
}

/// One handler to run: its position in the registry and its argument.
#[derive(Clone, Debug)]
pub struct HandlerCall {
    pub index: usize,
    pub arg: HandlerArg,
}

pub open spec fn click_of(e: MouseEventData) -> ClickEvent {
    ClickEvent { x: e.x, y: e.y, button: e.button }
}

pub open spec fn key_of(e: KeyEventData) -> KeyEvent {
    KeyEvent { key: e.key, shift: e.shift, ctrl: e.ctrl, alt: e.alt, meta: e.meta }
}

/// The argument a handler of `kind` receives for `event`, or `None` when the
/// handler does not accept that event.
pub open spec fn spec_handler_arg(kind: HandlerKind, event: UiEvent) -> Option<HandlerArg> {
    match (kind, event) {
        (HandlerKind::Click, UiEvent::Clicked(e)) => Some(HandlerArg::Click(click_of(e))),
        (HandlerKind::DoubleClick, UiEvent::DoubleClicked(e)) => Some(HandlerArg::Click(click_of(e))),
        (HandlerKind::RightClick, UiEvent::RightClicked(e)) => Some(HandlerArg::Click(click_of(e))),
        (HandlerKind::Hover, UiEvent::HoverStart) => Some(HandlerArg::Hover(true)),
        (HandlerKind::Hover, UiEvent::HoverEnd) => Some(HandlerArg::Hover(false)),
        (HandlerKind::ScrollWheel, UiEvent::ScrollWheel(e)) => Some(
            HandlerArg::Scroll(ScrollEvent { delta_x: e.delta_x, delta_y: e.delta_y, precise: e.precise }),
        ),
        (HandlerKind::KeyDown, UiEvent::KeyDown(e)) => Some(HandlerArg::Key(key_of(e))),
        (HandlerKind::KeyUp, UiEvent::KeyUp(e)) => Some(HandlerArg::Key(key_of(e))),
        (HandlerKind::MouseMove, UiEvent::MouseMoved(e)) => Some(HandlerArg::MouseMove(e.x, e.y)),
        (HandlerKind::FocusGained, UiEvent::FocusGained) => Some(HandlerArg::Unit),
        (HandlerKind::FocusLost, UiEvent::FocusLost) => Some(HandlerArg::Unit),
        (HandlerKind::InputChanged, UiEvent::InputChanged(s)) => Some(HandlerArg::Text(s)),
        (HandlerKind::Drop, UiEvent::Dropped(s)) => Some(HandlerArg::Text(s)),
        _ => None,
    }
}

/// The argument a handler of `kind` receives for `event`, if it accepts it.
pub fn handler_arg(kind: HandlerKind, event: &UiEvent) -> (r: Option<HandlerArg>)
    ensures
        r == spec_handler_arg(kind, *event),
{
    match (kind, event) {
        (HandlerKind::Click, UiEvent::Clicked(e)) => Some(
            HandlerArg::Click(ClickEvent { x: e.x, y: e.y, button: e.button }),
        ),
        (HandlerKind::DoubleClick, UiEvent::DoubleClicked(e)) => Some(
            HandlerArg::Click(ClickEvent { x: e.x, y: e.y, button: e.button }),
        ),
        (HandlerKind::RightClick, UiEvent::RightClicked(e)) => Some(
            HandlerArg::Click(ClickEvent { x: e.x, y: e.y, button: e.button }),
        ),
        (HandlerKind::Hover, UiEvent::HoverStart) => Some(HandlerArg::Hover(true)),
        (HandlerKind::Hover, UiEvent::HoverEnd) => Some(HandlerArg::Hover(false)),
        (HandlerKind::ScrollWheel, UiEvent::ScrollWheel(e)) => Some(
            HandlerArg::Scroll(ScrollEvent { delta_x: e.delta_x, delta_y: e.delta_y, precise: e.precise }),
        ),
        (HandlerKind::KeyDown, UiEvent::KeyDown(e)) => Some(
            HandlerArg::Key(
                KeyEvent { key: e.key.clone(), shift: e.shift, ctrl: e.ctrl, alt: e.alt, meta: e.meta },
            ),
        ),
        (HandlerKind::KeyUp, UiEvent::KeyUp(e)) => Some(
            HandlerArg::Key(
                KeyEvent { key: e.key.clone(), shift: e.shift, ctrl: e.ctrl, alt: e.alt, meta: e.meta },
            ),
        ),
        (HandlerKind::MouseMove, UiEvent::MouseMoved(e)) => Some(HandlerArg::MouseMove(e.x, e.y)),
        (HandlerKind::FocusGained, UiEvent::FocusGained) => Some(HandlerArg::Unit),
        (HandlerKind::FocusLost, UiEvent::FocusLost) => Some(HandlerArg::Unit),
        (HandlerKind::InputChanged, UiEvent::InputChanged(s)) => Some(HandlerArg::Text(s.clone())),
        (HandlerKind::Drop, UiEvent::Dropped(s)) => Some(HandlerArg::Text(s.clone())),
        _ => None,
    }
}

/// A handler attached to the element with id `id`.
pub struct RegisteredHandler<H> {
    pub id: String,
    pub kind: HandlerKind,
    pub handler: H,
}

/// Handlers in the order they were registered, each keyed by element id.
pub struct HandlerRegistry<H> {
    entries: Vec<RegisteredHandler<H>>,
}

/// The calls that `entries` produce for an event from element `id`: every
/// handler registered under `id` that accepts the event, in registration order.
pub open spec fn spec_dispatch<H>(entries: Seq<(Seq<char>, HandlerKind, H)>, id: Seq<char>, event: UiEvent) -> Seq<HandlerCall>
    decreases entries.len(),
{
    if entries.len() == 0 {
        Seq::empty()
    } else {
        let last = entries.last();
        let earlier = spec_dispatch(entries.drop_last(), id, event);
        if last.0 == id && spec_handler_arg(last.1, event) is Some {
            earlier.push(HandlerCall { index: (entries.len() - 1) as usize, arg: spec_handler_arg(last.1, event)->0 })
        } else {
            earlier
        }
    }
}

impl<H> View for HandlerRegistry<H> {
    type V = Seq<(Seq<char>, HandlerKind, H)>;

    closed spec fn view(&self) -> Seq<(Seq<char>, HandlerKind, H)> {
        self.entries@.map_values(|e: RegisteredHandler<H>| (e.id@, e.kind, e.handler))
    }
}

impl<H> HandlerRegistry<H> {
    /// An empty registry.
    pub fn new() -> (r: Self)
        ensures
            r@ == Seq::<(Seq<char>, HandlerKind, H)>::empty(),
    {
        let r = HandlerRegistry { entries: Vec::new() };
        assert(r@ =~= Seq::<(Seq<char>, HandlerKind, H)>::empty());
        r
    }

    /// Number of registered handlers.
    pub fn len(&self) -> (n: usize)
        ensures
            n == self@.len(),
    {
        self.entries.len()
    }

    /// The handler at position `index`.
    pub fn handler(&self, index: usize) -> (h: &H)
        requires
            index < self@.len(),
        ensures
            *h == self@[index as int].2,
    {
        &self.entries[index].handler
    }

    /// Register an event handler for the given element id. Handlers are
    /// keyed by element id and matched in [`HandlerRegistry::dispatch_event`].
    pub fn register_handler(&mut self, id: String, kind: HandlerKind, handler: H)
        ensures
            final(self)@ == old(self)@.push((id@, kind, handler)),
    {
        let ghost v = id@;
        self.entries.push(RegisteredHandler { id, kind, handler });
        assert(self@ =~= old(self)@.push((v, kind, handler)));
    }

    /// Clear all registered event handlers. Call this at the start of every
    /// render to avoid stale handlers.
    pub fn clear_handlers(&mut self)
        ensures
            final(self)@ == Seq::<(Seq<char>, HandlerKind, H)>::empty(),
    {
        self.entries.clear();
        assert(self@ =~= Seq::<(Seq<char>, HandlerKind, H)>::empty());
    }

    /// The handlers to run for an incoming event from element `source_id`,
    /// with their arguments, in the order they were registered.
    pub fn dispatch_event(&self, source_id: &str, event: &UiEvent) -> (calls: Vec<HandlerCall>)
        ensures
            calls@ == spec_dispatch(self@, source_id@, *event),
    {
        let id = source_id.to_owned();
        let mut calls: Vec<HandlerCall> = Vec::new();
        let mut i: usize = 0;
        while i < self.entries.len()
            invariant
                i <= self.entries@.len(),
                id@ == source_id@,
                self@.len() == self.entries@.len(),
                calls@ == spec_dispatch(self@.take(i as int), source_id@, *event),
            decreases self.entries@.len() - i,
        {
            proof {
                assert(self@.take(i + 1).drop_last() =~= self@.take(i as int));
                assert(self@[i as int] == (self.entries@[i as int].id@, self.entries@[i as int].kind, self.entries@[i as int].handler));
            }
            let entry = &self.entries[i];
            if entry.id == id {
                match handler_arg(entry.kind, event) {
                    Some(arg) => {
                        calls.push(HandlerCall { index: i, arg });
                    },
                    None => {},
                }
            }
            i += 1;
        }
        assert(self@.take(i as int) =~= self@);
        calls
    }
}

} // verus!
