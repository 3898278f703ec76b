//! The event taxonomy: raw platform input events as the hook reports them,
//! the normalized domain events handed to the sink, and the classification
//! that maps the one to the other.
//!
//! A raw event carries, as plain values, exactly what the classification
//! reads of the platform's event: the identifier text of a button or key
//! (its debug-formatted name, produced at the boundary that owns the
//! platform types) and integer pointer coordinates. Every platform variant
//! outside the five recognized ones is presented as `Unrecognized` and is
//! dropped by the classification.

use vstd::prelude::*;

verus! {

/// A raw platform input event, as handed in by the hook boundary.
#[derive(Debug, Clone, PartialEq, Eq)]
pub enum RawEvent {
    ButtonPress { button: String },
    ButtonRelease { button: String },
    PointerMove { x: i64, y: i64 },
    KeyPress { key: String },
    KeyRelease { key: String },
    /// Any platform variant outside the five recognized ones.
    Unrecognized,
}

/// The mathematical value of a raw event: identifier text as a character
/// sequence, coordinates as unbounded integers.
pub enum RawEventView {
    ButtonPress { button: Seq<char> },
    ButtonRelease { button: Seq<char> },
    PointerMove { x: int, y: int },
    KeyPress { key: Seq<char> },
    KeyRelease { key: Seq<char> },
    Unrecognized,
}

impl View for RawEvent {
    type V = RawEventView;

    open spec fn view(&self) -> RawEventView {
        match self {
            RawEvent::ButtonPress { button } => RawEventView::ButtonPress { button: button@ },
            RawEvent::ButtonRelease { button } => RawEventView::ButtonRelease { button: button@ },
            RawEvent::PointerMove { x, y } => RawEventView::PointerMove { x: *x as int, y: *y as int },
            RawEvent::KeyPress { key } => RawEventView::KeyPress { key: key@ },
            RawEvent::KeyRelease { key } => RawEventView::KeyRelease { key: key@ },
            RawEvent::Unrecognized => RawEventView::Unrecognized,
        }
    }
}

/// The closed enumeration of normalized event kinds; no catch-all.
#[derive(Debug, Clone, Copy, PartialEq, Eq, Structural)]
pub enum DeviceEventKind {
    MousePress,
    MouseRelease,
    MouseMove,
    KeyboardPress,
    KeyboardRelease,
}

/// The payload of a normalized event; its shape depends on the kind:
/// identifier text for button and key events, a coordinate pair for
/// pointer movement.
#[derive(Debug, Clone, PartialEq, Eq)]
pub enum EventPayload {
    Text(String),
    Position { x: i64, y: i64 },
}

/// The mathematical value of a payload.
pub enum PayloadView {
    Text(Seq<char>),
    Position { x: int, y: int },
}

impl View for EventPayload {
    type V = PayloadView;

    open spec fn view(&self) -> PayloadView {
        match self {
            EventPayload::Text(s) => PayloadView::Text(s@),
            EventPayload::Position { x, y } => PayloadView::Position { x: *x as int, y: *y as int },
        }
    }
}

/// A normalized domain event: a kind out of the closed enumeration and the
/// payload that belongs to that kind.
#[derive(Debug, Clone, PartialEq, Eq)]
pub struct DeviceEvent {
    pub kind: DeviceEventKind,
    pub value: EventPayload,
}

/// The mathematical value of a domain event.
pub struct DeviceEventView {
    pub kind: DeviceEventKind,
    pub value: PayloadView,
}

impl View for DeviceEvent {
    type V = DeviceEventView;

    open spec fn view(&self) -> DeviceEventView {
        DeviceEventView { kind: self.kind, value: self.value@ }
    }
}

/// Whether a raw event belongs to one of the five recognized variants.
pub open spec fn is_recognized(e: RawEventView) -> bool {
    !(e is Unrecognized)
}

/// The classification table: each recognized raw variant maps to exactly one
/// domain event, with the payload taken from the raw event; an unrecognized
/// raw event maps to nothing.
pub open spec fn classify_view(e: RawEventView) -> Option<DeviceEventView> {
    match e {
        RawEventView::ButtonPress { button } => Some(
            DeviceEventView { kind: DeviceEventKind::MousePress, value: PayloadView::Text(button) },
        ),
        RawEventView::ButtonRelease { button } => Some(
            DeviceEventView {
                kind: DeviceEventKind::MouseRelease,
                value: PayloadView::Text(button),
            },
        ),
        RawEventView::PointerMove { x, y } => Some(
            DeviceEventView { kind: DeviceEventKind::MouseMove, value: PayloadView::Position { x, y } },
        ),
        RawEventView::KeyPress { key } => Some(
            DeviceEventView { kind: DeviceEventKind::KeyboardPress, value: PayloadView::Text(key) },
        ),
        RawEventView::KeyRelease { key } => Some(
            DeviceEventView {
                kind: DeviceEventKind::KeyboardRelease,
                value: PayloadView::Text(key),
            },
        ),
        RawEventView::Unrecognized => None,
    }
}

/// Classification totality: the classification yields an event exactly for
/// the recognized raw variants, and never more than one.
pub proof fn lemma_classification_total(e: RawEventView)
    ensures
        classify_view(e) is Some <==> is_recognized(e),
{
}

/// Classifies one raw event: returns the domain event the classification
/// table gives for it, or nothing for an unrecognized variant.
pub fn classify(e: &RawEvent) -> (r: Option<DeviceEvent>)
    ensures
        r matches Some(d) ==> classify_view(e@) == Some(d@),
        r is None ==> classify_view(e@) is None,
        r is Some <==> is_recognized(e@),
{
    match e {
        RawEvent::ButtonPress { button } => Some(
            DeviceEvent {
                kind: DeviceEventKind::MousePress,
                value: EventPayload::Text(button.clone()),
            },
        ),
        RawEvent::ButtonRelease { button } => Some(
            DeviceEvent {
                kind: DeviceEventKind::MouseRelease,
                value: EventPayload::Text(button.clone()),
            },
        ),
        RawEvent::PointerMove { x, y } => Some(
            DeviceEvent {
                kind: DeviceEventKind::MouseMove,
                value: EventPayload::Position { x: *x, y: *y },
            },
        ),
        RawEvent::KeyPress { key } => Some(
            DeviceEvent {
                kind: DeviceEventKind::KeyboardPress,
                value: EventPayload::Text(key.clone()),
            },
        ),
        RawEvent::KeyRelease { key } => Some(
            DeviceEvent {
                kind: DeviceEventKind::KeyboardRelease,
                value: EventPayload::Text(key.clone()),
            },
        ),
        RawEvent::Unrecognized => None,
    }
}

} // verus!
