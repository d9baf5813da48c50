//! One session: its inbound dispatch and its state machine.
//!
//! The client owns no socket and no timer. Whoever drives it performs the
//! I/O, reports each outcome as a `SessionInput`, and carries out the
//! `SessionAction`s that come back, in order.
//!
//! A session starts in `Connecting`. `Connected` takes it to
//! `Authenticating`, `Sent` from there to `Active`. A failure before
//! `Active` ends it in `Failed`. A fatal error in `Active` takes it to
//! `Closing`, and `Shutdown` from there to `Closed`.

use crate::auth::{auth_json, text_view, web_auth, AuthPayload, AuthPayloadView};
use crate::codec::FrameError;
use crate::demux::{sub_frame_at_front, sub_payloads, text_event, text_events};
use crate::event::{event_views, EventView, SessionEvent};
use crate::message::{
    outbound, Message, MessageView, Opcode, ProtocolHeader, ProtocolVersion, MAX_PAYLOAD_SIZE,
};
use crate::utils::{
    brotli_decode, brotli_stream, decoded_view, text_from_utf8, zlib_decode, zlib_stream,
};
use vstd::prelude::*;
use vstd::slice::{slice_subrange, slice_to_vec};
use vstd::utf8::encode_utf8;

verus! {

/// Seconds between two heartbeats, and between entering `Active` and the
/// first one.
pub const HEARTBEAT_PERIOD_SECS: u64 = 30;

/// Sequence number of the authentication frame.
pub const AUTH_SEQUENCE: u32 = 1;

/// Sequence number of the first heartbeat.
pub const FIRST_HEARTBEAT_SEQUENCE: u32 = 2;

/// Where a session stands.
#[derive(Debug, Clone, Copy, PartialEq, Eq, Structural)]
pub enum SessionState {
    /// The transport is being opened.
    Connecting,
    /// The authentication frame is on its way out.
    Authenticating,
    /// Frames come in and heartbeats go out.
    Active,
    /// A fatal error ended the exchange; the closing notice is still due.
    Closing,
    /// The session ended after having been active.
    Closed,
    /// The session ended before it became active.
    Failed,
}

/// What happened outside since the last step.
#[derive(Debug, Clone, PartialEq, Eq)]
pub enum SessionInput {
    /// The transport is open.
    Connected,
    /// The transport could not be opened; the text is the cause.
    ConnectFailed(String),
    /// The frame last handed out for sending has been written.
    Sent,
    /// The frame last handed out for sending could not be written.
    SendFailed(String),
    /// The codec produced a frame.
    Received(Message),
    /// Reading or decoding failed.
    ReceiveFailed(String),
    /// The heartbeat timer fired.
    HeartbeatDue,
    /// The exchange is over and the closing notice may go out.
    Shutdown,
}

/// An input as a mathematical value.
pub enum InputView {
    Connected,
    ConnectFailed(Seq<char>),
    Sent,
    SendFailed(Seq<char>),
    Received(MessageView),
    ReceiveFailed(Seq<char>),
    HeartbeatDue,
    Shutdown,
}

impl View for SessionInput {
    type V = InputView;

    open spec fn view(&self) -> InputView {
        match *self {
            SessionInput::Connected => InputView::Connected,
            SessionInput::ConnectFailed(cause) => InputView::ConnectFailed(cause@),
            SessionInput::Sent => InputView::Sent,
            SessionInput::SendFailed(cause) => InputView::SendFailed(cause@),
            SessionInput::Received(msg) => InputView::Received(msg@),
            SessionInput::ReceiveFailed(cause) => InputView::ReceiveFailed(cause@),
            SessionInput::HeartbeatDue => InputView::HeartbeatDue,
            SessionInput::Shutdown => InputView::Shutdown,
        }
    }
}

/// What the driver is to do next.
#[derive(Debug, Clone, PartialEq, Eq)]
pub enum SessionAction {
    /// Hand the event to the sink; failures of the sink are ignored.
    Emit(SessionEvent),
    /// Encode the frame and write it, then report `Sent` or `SendFailed`.
    Send(Message),
    /// Start the periodic heartbeat timer with this period in seconds; its
    /// first `HeartbeatDue` comes one full period from now.
    StartHeartbeat(u64),
}

/// An action as a mathematical value.
pub enum ActionView {
    Emit(EventView),
    Send(MessageView),
    StartHeartbeat(u64),
}

impl View for SessionAction {
    type V = ActionView;

    open spec fn view(&self) -> ActionView {
        match *self {
            SessionAction::Emit(event) => ActionView::Emit(event@),
            SessionAction::Send(msg) => ActionView::Send(msg@),
            SessionAction::StartHeartbeat(secs) => ActionView::StartHeartbeat(secs),
        }
    }
}

/// The views of a run of actions, in order.
pub open spec fn action_views(actions: Seq<SessionAction>) -> Seq<ActionView> {
    actions.map_values(|a: SessionAction| a@)
}

/// One `Emit` per event, in order.
pub open spec fn emit_all(events: Seq<EventView>) -> Seq<ActionView> {
    events.map_values(|e: EventView| ActionView::Emit(e))
}

/// The error event whose text is `label` followed by `cause`.
pub open spec fn error_event(label: Seq<char>, cause: Seq<char>) -> EventView {
    EventView::ConnectionError(label + cause)
}

/// What a decompressed body, or the failure to decompress it, amounts to:
/// the texts of its sub-frames, or one error event.
pub open spec fn unpacked_events(
    label: Seq<char>,
    decoded: Result<Seq<u8>, Seq<char>>,
) -> Seq<EventView> {
    match decoded {
        Ok(body) => text_events(sub_payloads(body)),
        Err(cause) => seq![error_event(label, cause)],
    }
}

/// The events that one inbound frame gives rise to. Only `NORMAL` frames
/// give any; their protocol version says how the payload is packed.
pub open spec fn inbound_events(msg: MessageView) -> Seq<EventView> {
    if msg.header.opcode != Opcode::NORMAL {
        Seq::empty()
    } else if msg.header.protocol_version == ProtocolVersion::COMPRESSED_BROTLI {
        unpacked_events("Brotli decompress error: "@, brotli_stream(msg.payload))
    } else if msg.header.protocol_version == ProtocolVersion::COMPRESSED_ZLIB {
        unpacked_events("Zlib decompress error: "@, zlib_stream(msg.payload))
    } else {
        text_events(seq![msg.payload])
    }
}

/// A session as a mathematical value.
pub struct SessionView {
    pub state: SessionState,
    /// The sequence number of the next heartbeat once the session is active.
    pub sequence: u32,
    pub auth: AuthPayloadView,
}

/// The outcome of one step.
pub struct Step {
    pub next: SessionView,
    pub actions: Seq<ActionView>,
}

/// A step that changes nothing and asks for nothing.
pub open spec fn stay(s: SessionView) -> Step {
    Step { next: s, actions: Seq::empty() }
}

/// A step that ends in `state` and emits one error event.
pub open spec fn fail_into(
    s: SessionView,
    state: SessionState,
    label: Seq<char>,
    cause: Seq<char>,
) -> Step {
    Step {
        next: SessionView { state, ..s },
        actions: seq![ActionView::Emit(error_event(label, cause))],
    }
}

/// The step taken when the transport has opened, given the JSON text of the
/// authentication payload. The success event comes first. With a text that
/// fits a frame the authentication frame follows. A text too long for a
/// frame fails the session with an error event; no text at all fails it
/// without one.
pub open spec fn on_connected(s: SessionView, json: Option<Seq<char>>) -> Step {
    match json {
        Some(text) => if encode_utf8(text).len() <= MAX_PAYLOAD_SIZE {
            Step {
                next: SessionView { state: SessionState::Authenticating, ..s },
                actions: seq![
                    ActionView::Emit(EventView::ConnectionSuccess),
                    ActionView::Send(outbound(Opcode::AUTH, AUTH_SEQUENCE, encode_utf8(text))),
                ],
            }
        } else {
            Step {
                next: SessionView { state: SessionState::Failed, ..s },
                actions: seq![
                    ActionView::Emit(EventView::ConnectionSuccess),
                    ActionView::Emit(error_event("Failed to send auth: "@, "Message too large"@)),
                ],
            }
        },
        None => Step {
            next: SessionView { state: SessionState::Failed, ..s },
            actions: seq![ActionView::Emit(EventView::ConnectionSuccess)],
        },
    }
}

/// The transition function of a session.
pub open spec fn step(s: SessionView, input: InputView) -> Step {
    match (s.state, input) {
        (SessionState::Connecting, InputView::Connected) => on_connected(s, auth_json(s.auth)),
        (SessionState::Connecting, InputView::ConnectFailed(cause)) => fail_into(
            s,
            SessionState::Failed,
            "Connection failed: "@,
            cause,
        ),
        (SessionState::Authenticating, InputView::Sent) => Step {
            next: SessionView {
                state: SessionState::Active,
                sequence: FIRST_HEARTBEAT_SEQUENCE,
                ..s
            },
            actions: seq![ActionView::StartHeartbeat(HEARTBEAT_PERIOD_SECS)],
        },
        (SessionState::Authenticating, InputView::SendFailed(cause)) => fail_into(
            s,
            SessionState::Failed,
            "Failed to send auth: "@,
            cause,
        ),
        (SessionState::Active, InputView::Received(msg)) => Step {
            next: s,
            actions: emit_all(inbound_events(msg)),
        },
        (SessionState::Active, InputView::ReceiveFailed(cause)) => fail_into(
            s,
            SessionState::Closing,
            "Receive error: "@,
            cause,
        ),
        (SessionState::Active, InputView::HeartbeatDue) => Step {
            next: SessionView { sequence: (s.sequence + 1) as u32, ..s },
            actions: seq![
                ActionView::Send(outbound(Opcode::HEARTBEAT, s.sequence, Seq::empty())),
            ],
        },
        (SessionState::Active, InputView::SendFailed(cause)) => fail_into(
            s,
            SessionState::Closing,
            "Heartbeat error: "@,
            cause,
        ),
        (SessionState::Closing, InputView::Shutdown) => Step {
            next: SessionView { state: SessionState::Closed, ..s },
            actions: seq![ActionView::Emit(EventView::ConnectionClosed)],
        },
        _ => stay(s),
    }
}

/// Whether a session in `state` has ended for good.
pub open spec fn finished(state: SessionState) -> bool {
    state == SessionState::Closed || state == SessionState::Failed
}

/// A session that has ended ignores every input.
pub proof fn lemma_finished_is_final(s: SessionView, input: InputView)
    requires
        finished(s.state),
    ensures
        step(s, input) == stay(s),
{
}

/// Nothing that arrives in a frame ends an active session: the session
/// stays as it is, and all that comes of the frame are events for the sink.
pub proof fn lemma_received_keeps_active(s: SessionView, msg: MessageView)
    requires
        s.state == SessionState::Active,
    ensures
        step(s, InputView::Received(msg)).next == s,
        forall|i: int|
            #![trigger step(s, InputView::Received(msg)).actions[i]]
            0 <= i < step(s, InputView::Received(msg)).actions.len()
                ==> step(s, InputView::Received(msg)).actions[i] is Emit,
{
}

/// A failure to read or to write ends an active session: one error event,
/// then `Closing`, and from there the closing notice and `Closed`.
pub proof fn lemma_fatal_error_closes(s: SessionView, input: InputView)
    requires
        s.state == SessionState::Active,
        input is ReceiveFailed || input is SendFailed,
    ensures
        step(s, input).next.state == SessionState::Closing,
        step(s, input).actions.len() == 1,
        step(s, input).actions[0] matches ActionView::Emit(e) && e is ConnectionError,
        step(step(s, input).next, InputView::Shutdown).next.state == SessionState::Closed,
        step(step(s, input).next, InputView::Shutdown).actions == seq![
            ActionView::Emit(EventView::ConnectionClosed),
        ],
{
}

/// Heartbeats count upwards: the first one of a session carries
/// `FIRST_HEARTBEAT_SEQUENCE`, and each one after it the next number.
pub proof fn lemma_heartbeat_sequence(s: SessionView)
    requires
        s.sequence < u32::MAX,
    ensures
        s.state == SessionState::Authenticating ==> step(s, InputView::Sent).next.sequence
            == FIRST_HEARTBEAT_SEQUENCE,
        s.state == SessionState::Active ==> step(s, InputView::HeartbeatDue).actions == seq![
            ActionView::Send(outbound(Opcode::HEARTBEAT, s.sequence, Seq::empty())),
        ] && step(s, InputView::HeartbeatDue).next == (SessionView {
            sequence: (s.sequence + 1) as u32,
            ..s
        }),
{
}

/// The client side of one session.
#[derive(Debug)]
pub struct SocketClient {
    state: SessionState,
    sequence: u32,
    auth: AuthPayload,
}

impl View for SocketClient {
    type V = SessionView;

    closed spec fn view(&self) -> SessionView {
        SessionView { state: self.state, sequence: self.sequence, auth: self.auth@ }
    }
}

fn error_text(label: &str, cause: &str) -> (text: String)
    ensures
        text@ == label@ + cause@,
{
    let mut text = label.to_owned();
    text.append(cause);
    text
}

fn emit_events(events: Vec<SessionEvent>) -> (actions: Vec<SessionAction>)
    ensures
        action_views(actions@) == emit_all(event_views(events@)),
{
    let mut actions: Vec<SessionAction> = Vec::new();
    let ghost all = events@;
    for event in it: events
        invariant
            it.seq() == all,
            action_views(actions@) == emit_all(event_views(all.take(it.index() as int))),
    {
        let ghost before = action_views(actions@);
        actions.push(SessionAction::Emit(event));
        assert(all.take(it.index() + 1) =~= all.take(it.index() as int).push(event));
        assert(action_views(actions@) =~= before.push(ActionView::Emit(event@)));
    }
    assert(all.take(all.len() as int) =~= all);
    actions
}

impl SocketClient {
    /// A session that is about to connect on behalf of user `uid` in room
    /// `room`, with `auth_token` as its key.
    pub fn new(uid: u64, room: u32, auth_token: String) -> (client: SocketClient)
        ensures
            client@ == (SessionView {
                state: SessionState::Connecting,
                sequence: AUTH_SEQUENCE,
                auth: web_auth(uid, room, auth_token@),
            }),
    {
        SocketClient {
            state: SessionState::Connecting,
            sequence: AUTH_SEQUENCE,
            auth: AuthPayload::new(uid, room, auth_token),
        }
    }

    /// Where the session stands.
    pub fn state(&self) -> (state: SessionState)
        ensures
            state == self@.state,
    {
        self.state
    }

    /// The sequence number that the next heartbeat will carry.
    pub fn sequence(&self) -> (sequence: u32)
        ensures
            sequence == self@.sequence,
    {
        self.sequence
    }

    /// Whether the session has ended for good.
    pub fn is_finished(&self) -> (b: bool)
        ensures
            b == finished(self@.state),
    {
        match self.state {
            SessionState::Closed => true,
            SessionState::Failed => true,
            _ => false,
        }
    }

    /// The step taken when the transport has opened, given the JSON text of
    /// the authentication payload, or `None` where there is no such text.
    /// Outside `Connecting` nothing happens.
    pub fn authenticate(&mut self, json: Option<String>) -> (actions: Vec<SessionAction>)
        ensures
            final(self)@ == if old(self)@.state == SessionState::Connecting {
                on_connected(old(self)@, text_view(json)).next
            } else {
                old(self)@
            },
            action_views(actions@) == if old(self)@.state == SessionState::Connecting {
                on_connected(old(self)@, text_view(json)).actions
            } else {
                Seq::empty()
            },
    {
        let mut actions: Vec<SessionAction> = Vec::new();
        match self.state {
            SessionState::Connecting => {},
            _ => {
                assert(action_views(actions@) =~= Seq::<ActionView>::empty());
                return actions;
            },
        }
        actions.push(SessionAction::Emit(SessionEvent::ConnectionSuccess));
        self.state = SessionState::Failed;
        match json {
            Some(text) => {
                let bytes = slice_to_vec(text.as_str().as_bytes());
                if bytes.len() <= MAX_PAYLOAD_SIZE {
                    actions.push(SessionAction::Send(Message::verification(AUTH_SEQUENCE, bytes)));
                    self.state = SessionState::Authenticating;
                } else {
                    let cause = FrameError::OversizedFrame.message();
                    let event = self.emit_error(error_text("Failed to send auth: ", cause.as_str()));
                    actions.push(SessionAction::Emit(event));
                }
            },
            None => {},
        }
        assert(action_views(actions@) =~= on_connected(old(self)@, text_view(json)).actions);
        actions
    }

    fn fail(&mut self, state: SessionState, label: &str, cause: String) -> (actions: Vec<SessionAction>)
        ensures
            final(self)@ == fail_into(old(self)@, state, label@, cause@).next,
            action_views(actions@) == fail_into(old(self)@, state, label@, cause@).actions,
    {
        let event = self.emit_error(error_text(label, cause.as_str()));
        self.state = state;
        let mut actions: Vec<SessionAction> = Vec::new();
        actions.push(SessionAction::Emit(event));
        assert(action_views(actions@) =~= fail_into(old(self)@, state, label@, cause@).actions);
        actions
    }

    /// Takes one step: folds `input` into the session and says what the
    /// driver is to do next. Inputs that the current state does not expect
    /// change nothing.
    pub fn connection(&mut self, input: SessionInput) -> (actions: Vec<SessionAction>)
        requires
            old(self)@.state == SessionState::Active && input is HeartbeatDue
                ==> old(self)@.sequence < u32::MAX,
        ensures
            final(self)@ == step(old(self)@, input@).next,
            action_views(actions@) == step(old(self)@, input@).actions,
    {
        match (self.state, input) {
            (SessionState::Connecting, SessionInput::Connected) => {
                let json = self.auth.to_json();
                self.authenticate(json)
            },
            (SessionState::Connecting, SessionInput::ConnectFailed(cause)) => {
                self.fail(SessionState::Failed, "Connection failed: ", cause)
            },
            (SessionState::Authenticating, SessionInput::Sent) => {
                self.state = SessionState::Active;
                self.sequence = FIRST_HEARTBEAT_SEQUENCE;
                let mut actions: Vec<SessionAction> = Vec::new();
                actions.push(SessionAction::StartHeartbeat(HEARTBEAT_PERIOD_SECS));
                assert(action_views(actions@) =~= step(old(self)@, input@).actions);
                actions
            },
            (SessionState::Authenticating, SessionInput::SendFailed(cause)) => {
                self.fail(SessionState::Failed, "Failed to send auth: ", cause)
            },
            (SessionState::Active, SessionInput::Received(msg)) => {
                let events = self.handle_incoming_message(msg);
                emit_events(events)
            },
            (SessionState::Active, SessionInput::ReceiveFailed(cause)) => {
                self.fail(SessionState::Closing, "Receive error: ", cause)
            },
            (SessionState::Active, SessionInput::HeartbeatDue) => {
                let heartbeat = Message::heartbeat(self.sequence);
                self.sequence = self.sequence + 1;
                let mut actions: Vec<SessionAction> = Vec::new();
                actions.push(SessionAction::Send(heartbeat));
                assert(action_views(actions@) =~= step(old(self)@, input@).actions);
                actions
            },
            (SessionState::Active, SessionInput::SendFailed(cause)) => {
                self.fail(SessionState::Closing, "Heartbeat error: ", cause)
            },
            (SessionState::Closing, SessionInput::Shutdown) => {
                self.state = SessionState::Closed;
                let mut actions: Vec<SessionAction> = Vec::new();
                actions.push(SessionAction::Emit(SessionEvent::ConnectionClosed));
                assert(action_views(actions@) =~= step(old(self)@, input@).actions);
                actions
            },
            _ => {
                let actions: Vec<SessionAction> = Vec::new();
                assert(action_views(actions@) =~= Seq::<ActionView>::empty());
                actions
            },
        }
    }

    /// Reads the sixteen header bytes at the front of `view`, if there are
    /// that many.
    pub fn parse_header(&self, view: &[u8]) -> (r: Option<ProtocolHeader>)
        ensures
            r == if view@.len() < 16 {
                None
            } else {
                Some(crate::codec::header_at(view@, 0))
            },
    {
        if view.len() < 16 {
            return None;
        }
        Some(
            ProtocolHeader {
                total_size: crate::wire::read_u32(view, 0),
                header_size: crate::wire::read_u16(view, 4),
                protocol_version: crate::wire::read_u16(view, 6),
                opcode: crate::wire::read_u32(view, 8),
                sequence: crate::wire::read_u32(view, 12),
            },
        )
    }

    /// Reads `payload` as text. Bytes that are not valid UTF-8 give no
    /// event.
    pub fn parse_message(&self, payload: &[u8]) -> (r: Option<SessionEvent>)
        ensures
            match r {
                Some(event) => text_event(payload@) == Some(event@),
                None => text_event(payload@) is None,
            },
    {
        match text_from_utf8(slice_to_vec(payload)) {
            Some(text) => Some(SessionEvent::MessageReceived(text)),
            None => None,
        }
    }

    /// Splits `buffer` into its sub-frames and reads the payload of each as
    /// text.
    pub fn depack_sub_packet(&self, buffer: &[u8]) -> (events: Vec<SessionEvent>)
        ensures
            event_views(events@) == text_events(sub_payloads(buffer@)),
    {
        let mut events: Vec<SessionEvent> = Vec::new();
        let mut offset: usize = 0;
        assert(buffer@.skip(0) =~= buffer@);
        while offset < buffer.len()
            invariant
                offset <= buffer@.len(),
                text_events(sub_payloads(buffer@)) == event_views(events@) + text_events(
                    sub_payloads(buffer@.skip(offset as int)),
                ),
            ensures
                text_events(sub_payloads(buffer@)) == event_views(events@),
            decreases buffer@.len() - offset,
        {
            let ghost rest = buffer@.skip(offset as int);
            let ghost before = event_views(events@);
            let sub_buffer = slice_subrange(buffer, offset, buffer.len());
            assert(sub_buffer@ =~= rest);
            let header = match self.parse_header(sub_buffer) {
                Some(v) => v,
                None => {
                    assert(!sub_frame_at_front(rest));
                    assert(before + Seq::<EventView>::empty() =~= before);
                    break ;
                },
            };
            let total_size: usize = header.total_size as usize;
            let header_size: usize = header.header_size as usize;
            if total_size == 0 || total_size > buffer.len() - offset || header_size > total_size {
                assert(!sub_frame_at_front(rest));
                assert(before + Seq::<EventView>::empty() =~= before);
                break ;
            }
            assert(sub_frame_at_front(rest));
            let payload = slice_subrange(buffer, offset + header_size, offset + total_size);
            assert(payload@ =~= rest.subrange(header_size as int, total_size as int));
            assert(rest.skip(total_size as int) =~= buffer@.skip(offset + total_size));
            proof {
                crate::demux::lemma_text_events_front(
                    payload@,
                    sub_payloads(rest.skip(total_size as int)),
                );
            }
            match self.parse_message(payload) {
                Some(event) => {
                    events.push(event);
                    assert(event_views(events@) =~= before + seq![event@]);
                },
                None => {},
            }
            offset += total_size;
            assert(text_events(sub_payloads(buffer@)) =~= event_views(events@) + text_events(
                sub_payloads(buffer@.skip(offset as int)),
            ));
        }
        events
    }

    /// The error event with `msg` as its text.
    pub fn emit_error(&self, msg: String) -> (event: SessionEvent)
        ensures
            event@ == EventView::ConnectionError(msg@),
    {
        SessionEvent::ConnectionError(msg)
    }

    /// Turns the outcome of a decompression into events: the texts of the
    /// sub-frames of the body, or one error event that starts with `label`.
    pub fn handle_decompressed(
        &self,
        label: &str,
        decoded: Result<Vec<u8>, String>,
    ) -> (events: Vec<SessionEvent>)
        ensures
            event_views(events@) == unpacked_events(label@, decoded_view(decoded)),
    {
        match decoded {
            Ok(body) => self.depack_sub_packet(body.as_slice()),
            Err(cause) => {
                let event = self.emit_error(error_text(label, cause.as_str()));
                let mut events: Vec<SessionEvent> = Vec::new();
                events.push(event);
                assert(event_views(events@) =~= seq![error_event(label@, cause@)]);
                events
            },
        }
    }

    /// The events that one inbound frame gives rise to.
    pub fn handle_incoming_message(&self, msg: Message) -> (events: Vec<SessionEvent>)
        ensures
            event_views(events@) == inbound_events(msg@),
    {
        if msg.header.opcode != Opcode::NORMAL {
            let events: Vec<SessionEvent> = Vec::new();
            assert(event_views(events@) =~= Seq::<EventView>::empty());
            return events;
        }
        if msg.header.protocol_version == ProtocolVersion::COMPRESSED_BROTLI {
            let decoded = brotli_decode(msg.payload);
            self.handle_decompressed("Brotli decompress error: ", decoded)
        } else if msg.header.protocol_version == ProtocolVersion::COMPRESSED_ZLIB {
            let decoded = zlib_decode(msg.payload);
            self.handle_decompressed("Zlib decompress error: ", decoded)
        } else {
            let mut events: Vec<SessionEvent> = Vec::new();
            proof {
                crate::demux::lemma_text_events_front(msg.payload@, Seq::empty());
                assert(seq![msg.payload@] + Seq::<Seq<u8>>::empty() =~= seq![msg.payload@]);
            }
            match self.parse_message(msg.payload.as_slice()) {
                Some(event) => {
                    events.push(event);
                    assert(event_views(events@) =~= seq![event@] + Seq::<EventView>::empty());
                },
                None => {
                    assert(event_views(events@) =~= Seq::<EventView>::empty());
                },
            }
            events
        }
    }
}

} // verus!
