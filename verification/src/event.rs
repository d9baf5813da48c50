//! What a session tells the consumer.

use vstd::prelude::*;

verus! {

/// A notification for the consumer's event sink.
#[derive(Debug, Clone, PartialEq, Eq)]
pub enum SessionEvent {
    /// The transport is open.
    ConnectionSuccess,
    /// Something failed; the text says what.
    ConnectionError(String),
    /// One decoded text message.
    MessageReceived(String),
    /// The session is over.
    ConnectionClosed,
}

/// A notification as a mathematical value.
pub enum EventView {
    ConnectionSuccess,
    ConnectionError(Seq<char>),
    MessageReceived(Seq<char>),
    ConnectionClosed,
}

impl View for SessionEvent {
    type V = EventView;

    open spec fn view(&self) -> EventView {
        match *self {
            SessionEvent::ConnectionSuccess => EventView::ConnectionSuccess,
            SessionEvent::ConnectionError(text) => EventView::ConnectionError(text@),
            SessionEvent::MessageReceived(text) => EventView::MessageReceived(text@),
            SessionEvent::ConnectionClosed => EventView::ConnectionClosed,
        }
    }
}

/// The views of a run of events, in order.
pub open spec fn event_views(events: Seq<SessionEvent>) -> Seq<EventView> {
    events.map_values(|e: SessionEvent| e@)
}

impl EventView {
    /// The name under which the sink receives the event.
    pub open spec fn name(self) -> Seq<char> {
        match self {
            EventView::ConnectionSuccess => "connection-success"@,
            EventView::ConnectionError(_) => "connection-error"@,
            EventView::MessageReceived(_) => "message-received"@,
            EventView::ConnectionClosed => "connection-closed"@,
        }
    }

    /// The single field of the event's body.
    pub open spec fn field(self) -> Seq<char> {
        match self {
            EventView::ConnectionSuccess => "status"@,
            EventView::ConnectionError(_) => "error"@,
            EventView::MessageReceived(_) => "payload"@,
            EventView::ConnectionClosed => "status"@,
        }
    }

    /// The text carried in that field.
    pub open spec fn value(self) -> Seq<char> {
        match self {
            EventView::ConnectionSuccess => "connected"@,
            EventView::ConnectionError(text) => text,
            EventView::MessageReceived(text) => text,
            EventView::ConnectionClosed => "disconnected"@,
        }
    }
}

impl SessionEvent {
    /// The name under which the sink receives the event.
    pub fn name(&self) -> (s: &'static str)
        ensures
            s@ == self@.name(),
    {
        match self {
            SessionEvent::ConnectionSuccess => "connection-success",
            SessionEvent::ConnectionError(_) => "connection-error",
            SessionEvent::MessageReceived(_) => "message-received",
            SessionEvent::ConnectionClosed => "connection-closed",
        }
    }

    /// The single field of the event's body.
    pub fn field(&self) -> (s: &'static str)
        ensures
            s@ == self@.field(),
    {
        match self {
            SessionEvent::ConnectionSuccess => "status",
            SessionEvent::ConnectionError(_) => "error",
            SessionEvent::MessageReceived(_) => "payload",
            SessionEvent::ConnectionClosed => "status",
        }
    }

    /// The text carried in that field.
    pub fn value(&self) -> (s: String)
        ensures
            s@ == self@.value(),
    {
        match self {
            SessionEvent::ConnectionSuccess => "connected".to_owned(),
            SessionEvent::ConnectionError(text) => text.clone(),
            SessionEvent::MessageReceived(text) => text.clone(),
            SessionEvent::ConnectionClosed => "disconnected".to_owned(),
        }
    }
}

} // verus!
