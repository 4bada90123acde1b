//! The dispatch loop as a state machine.
//!
//! The loop owns the live stream. It hands each thing that happens on the
//! stream to `step` as an event, sends the reply that `step` asks for, and
//! goes on while the state is `Connected`. One event is dealt with in full
//! before the next is taken, so replies leave in the order of their frames.

use vstd::prelude::*;
use crate::ack::ack_for;
use crate::ack::ack_json;
use crate::ack::acknowledgement;
use crate::ack::encode;
use crate::json::document_of;
use crate::json::text_at;
use crate::message::decode;
use crate::message::decoded;
use crate::message::known_kind;
use crate::message::outcome_view;
use crate::message::DecodeError;
use crate::message::MessageView;
use crate::message::SocketModeMessage;

verus! {

/// Where the loop stands.
#[derive(Clone, Copy, Debug, PartialEq, Eq, Structural)]
pub enum LoopState {
    /// Frames are taken and answered.
    Connected,
    /// The loop has been told to end, or the stream has failed it.
    Terminating,
    /// The connection is gone for good.
    Closed,
}

/// One frame off the stream, as far as the protocol cares.
#[derive(Clone, Debug, PartialEq, Eq)]
pub enum Frame {
    /// A text frame with its content.
    Text(String),
    /// A ping, which the transport answers by itself.
    Ping,
    /// Any other kind: binary, pong, close.
    Other,
}

/// Something that happened on the stream.
#[derive(Clone, Debug, PartialEq, Eq)]
pub enum Event {
    /// A frame arrived.
    Frame(Frame),
    /// The stream has no more frames.
    StreamEnded,
    /// The stream failed while a frame was read.
    ReceiveFailed,
    /// The stream failed while a reply was sent.
    SendFailed,
}

/// What the loop made of an event, for whoever keeps a log.
#[derive(Clone, Debug, PartialEq, Eq)]
pub enum Report {
    /// A text frame held this envelope.
    Envelope(SocketModeMessage),
    /// A text frame held no envelope, for this reason.
    Undecodable(DecodeError),
    /// A ping went by.
    Ping,
    /// A frame of a kind that the protocol does not use went by.
    UnknownFrame,
    /// The stream has no more frames.
    StreamEnded,
    /// The stream failed while a frame was read.
    ReceiveFailed,
    /// The stream failed while a reply was sent.
    SendFailed,
    /// The event came after the loop had stopped taking frames.
    NotConnected,
}

/// What the loop does about one event.
#[derive(Clone, Debug, PartialEq, Eq)]
pub struct Transition {
    /// The state after the event.
    pub next: LoopState,
    /// The text frame to send before anything else is taken, if any.
    pub reply: Option<String>,
    /// What was seen.
    pub report: Report,
}

pub enum FrameView {
    Text(Seq<char>),
    Ping,
    Other,
}

pub enum EventView {
    Frame(FrameView),
    StreamEnded,
    ReceiveFailed,
    SendFailed,
}

pub enum ReportView {
    Envelope(MessageView),
    Undecodable(DecodeError),
    Ping,
    UnknownFrame,
    StreamEnded,
    ReceiveFailed,
    SendFailed,
    NotConnected,
}

pub struct TransitionView {
    pub next: LoopState,
    pub reply: Option<Seq<char>>,
    pub report: ReportView,
}

impl View for Frame {
    type V = FrameView;

    open spec fn view(&self) -> FrameView {
        match self {
            Frame::Text(text) => FrameView::Text(text@),
            Frame::Ping => FrameView::Ping,
            Frame::Other => FrameView::Other,
        }
    }
}

impl View for Event {
    type V = EventView;

    open spec fn view(&self) -> EventView {
        match self {
            Event::Frame(frame) => EventView::Frame(frame@),
            Event::StreamEnded => EventView::StreamEnded,
            Event::ReceiveFailed => EventView::ReceiveFailed,
            Event::SendFailed => EventView::SendFailed,
        }
    }
}

impl View for Report {
    type V = ReportView;

    open spec fn view(&self) -> ReportView {
        match self {
            Report::Envelope(message) => ReportView::Envelope(message@),
            Report::Undecodable(e) => ReportView::Undecodable(*e),
            Report::Ping => ReportView::Ping,
            Report::UnknownFrame => ReportView::UnknownFrame,
            Report::StreamEnded => ReportView::StreamEnded,
            Report::ReceiveFailed => ReportView::ReceiveFailed,
            Report::SendFailed => ReportView::SendFailed,
            Report::NotConnected => ReportView::NotConnected,
        }
    }
}

impl View for Transition {
    type V = TransitionView;

    open spec fn view(&self) -> TransitionView {
        TransitionView {
            next: self.next,
            reply: match self.reply {
                Some(text) => Some(text@),
                None => None,
            },
            report: self.report@,
        }
    }
}

impl ReportView {
    /// Whether what was seen ends the process with a failure, as opposed to
    /// letting it go on or end in good order.
    pub open spec fn is_fatal(self) -> bool {
        self is ReceiveFailed || self is SendFailed
    }
}

impl Report {
    /// Whether what was seen ends the process with a failure.
    pub fn is_fatal(&self) -> (r: bool)
        ensures
            r == self@.is_fatal(),
    {
        match self {
            Report::ReceiveFailed => true,
            Report::SendFailed => true,
            _ => false,
        }
    }
}

/// What the connected loop does about the outcome of decoding a text frame.
/// Only a disconnect request ends the loop; only a command or an interaction
/// is answered; a frame that decodes to nothing is passed over.
pub open spec fn reaction(outcome: Result<MessageView, DecodeError>) -> TransitionView {
    match outcome {
        Ok(message) => TransitionView {
            next: if message is Disconnect {
                LoopState::Terminating
            } else {
                LoopState::Connected
            },
            reply: match ack_for(message) {
                Some(ack) => Some(ack_json(ack)),
                None => None,
            },
            report: ReportView::Envelope(message),
        },
        Err(e) => TransitionView {
            next: LoopState::Connected,
            reply: None,
            report: ReportView::Undecodable(e),
        },
    }
}

/// What the loop does about an event in a state.
pub open spec fn transition(state: LoopState, event: EventView) -> TransitionView {
    match state {
        LoopState::Connected => match event {
            EventView::Frame(FrameView::Text(text)) => reaction(decoded(text)),
            EventView::Frame(FrameView::Ping) => TransitionView {
                next: LoopState::Connected,
                reply: None,
                report: ReportView::Ping,
            },
            EventView::Frame(FrameView::Other) => TransitionView {
                next: LoopState::Connected,
                reply: None,
                report: ReportView::UnknownFrame,
            },
            EventView::StreamEnded => TransitionView {
                next: LoopState::Terminating,
                reply: None,
                report: ReportView::StreamEnded,
            },
            EventView::ReceiveFailed => TransitionView {
                next: LoopState::Terminating,
                reply: None,
                report: ReportView::ReceiveFailed,
            },
            EventView::SendFailed => TransitionView {
                next: LoopState::Terminating,
                reply: None,
                report: ReportView::SendFailed,
            },
        },
        _ => TransitionView {
            next: LoopState::Closed,
            reply: None,
            report: ReportView::NotConnected,
        },
    }
}

/// Decides what the connected loop does about the outcome of decoding a
/// text frame.
pub fn react(outcome: Result<SocketModeMessage, DecodeError>) -> (t: Transition)
    ensures
        t@ == reaction(outcome_view(outcome)),
{
    match outcome {
        Ok(message) => {
            let next = match &message {
                SocketModeMessage::Disconnect { .. } => LoopState::Terminating,
                _ => LoopState::Connected,
            };
            let reply = match acknowledgement(&message) {
                Some(ack) => Some(encode(&ack)),
                None => None,
            };
            Transition { next, reply, report: Report::Envelope(message) }
        },
        Err(e) => Transition {
            next: LoopState::Connected,
            reply: None,
            report: Report::Undecodable(e),
        },
    }
}

/// Takes one step of the loop: decides the next state and the reply, if any,
/// for an event that happened in `state`.
pub fn step(state: LoopState, event: Event) -> (t: Transition)
    ensures
        t@ == transition(state, event@),
{
    match state {
        LoopState::Connected => match event {
            Event::Frame(Frame::Text(text)) => react(decode(text.as_str())),
            Event::Frame(Frame::Ping) => Transition {
                next: LoopState::Connected,
                reply: None,
                report: Report::Ping,
            },
            Event::Frame(Frame::Other) => Transition {
                next: LoopState::Connected,
                reply: None,
                report: Report::UnknownFrame,
            },
            Event::StreamEnded => Transition {
                next: LoopState::Terminating,
                reply: None,
                report: Report::StreamEnded,
            },
            Event::ReceiveFailed => Transition {
                next: LoopState::Terminating,
                reply: None,
                report: Report::ReceiveFailed,
            },
            Event::SendFailed => Transition {
                next: LoopState::Terminating,
                reply: None,
                report: Report::SendFailed,
            },
        },
        _ => Transition { next: LoopState::Closed, reply: None, report: Report::NotConnected },
    }
}

/// The state that the loop is in after some events, taken in their order.
pub open spec fn state_after(state: LoopState, events: Seq<EventView>) -> LoopState
    decreases events.len(),
{
    if events.len() == 0 {
        state
    } else {
        state_after(transition(state, events[0]).next, events.skip(1))
    }
}

/// The replies that the loop sends for some events, in the order in which
/// they leave.
pub open spec fn sent(state: LoopState, events: Seq<EventView>) -> Seq<Seq<char>>
    decreases events.len(),
{
    if events.len() == 0 {
        Seq::empty()
    } else {
        let t = transition(state, events[0]);
        let first = match t.reply {
            Some(text) => seq![text],
            None => Seq::empty(),
        };
        first + sent(t.next, events.skip(1))
    }
}

/// A text frame that decodes to nothing, whether its `type` is unknown or
/// it is broken in another way, neither ends the loop nor is answered: the
/// events after it are dealt with as if it had not come.
pub proof fn undecodable_frame_is_passed_over(text: Seq<char>, later: Seq<EventView>)
    requires
        decoded(text) is Err,
    ensures
        transition(LoopState::Connected, EventView::Frame(FrameView::Text(text))).next
            == LoopState::Connected,
        transition(LoopState::Connected, EventView::Frame(FrameView::Text(text))).reply is None,
        sent(LoopState::Connected, seq![EventView::Frame(FrameView::Text(text))] + later) == sent(
            LoopState::Connected,
            later,
        ),
        state_after(LoopState::Connected, seq![EventView::Frame(FrameView::Text(text))] + later)
            == state_after(LoopState::Connected, later),
{
    let events = seq![EventView::Frame(FrameView::Text(text))] + later;
    assert(events.skip(1) =~= later);
    assert(sent(LoopState::Connected, events) =~= sent(LoopState::Connected, later));
}

/// A command or an interaction is answered by one reply, which is the
/// acknowledgement that carries the frame's own envelope id, and the loop
/// goes on.
pub proof fn pending_envelope_is_acknowledged_once(text: Seq<char>)
    requires
        decoded(text) matches Ok(message) && (message is SlashCommands || message is Interactive),
    ensures
        ack_for(decoded(text)->Ok_0) matches Some(ack) && Some(ack.envelope_id) == decoded(
            text,
        )->Ok_0.envelope_id() && transition(
            LoopState::Connected,
            EventView::Frame(FrameView::Text(text)),
        ).reply == Some(ack_json(ack)) && sent(
            LoopState::Connected,
            seq![EventView::Frame(FrameView::Text(text))],
        ) == seq![ack_json(ack)],
        transition(LoopState::Connected, EventView::Frame(FrameView::Text(text))).next
            == LoopState::Connected,
{
    let events = seq![EventView::Frame(FrameView::Text(text))];
    assert(events.skip(1).len() == 0);
    assert(sent(LoopState::Connected, events.skip(1)) =~= Seq::empty());
    assert(sent(LoopState::Connected, events) =~= seq![ack_json(ack_for(decoded(text)->Ok_0)->0)]);
}

/// A greeting is not answered and the loop goes on; a disconnect request is
/// not answered and the loop ends.
pub proof fn greeting_and_disconnect_are_not_answered(text: Seq<char>)
    requires
        decoded(text) matches Ok(message) && (message is Hello || message is Disconnect),
    ensures
        transition(LoopState::Connected, EventView::Frame(FrameView::Text(text))).reply is None,
        decoded(text)->Ok_0 is Hello ==> transition(
            LoopState::Connected,
            EventView::Frame(FrameView::Text(text)),
        ).next == LoopState::Connected,
        decoded(text)->Ok_0 is Disconnect ==> transition(
            LoopState::Connected,
            EventView::Frame(FrameView::Text(text)),
        ).next == LoopState::Terminating,
{
}

/// Once the loop has left `Connected` it never returns and never sends
/// again, whatever happens on the stream.
pub proof fn nothing_is_sent_after_the_loop_ends(state: LoopState, events: Seq<EventView>)
    requires
        state != LoopState::Connected,
    ensures
        sent(state, events) == Seq::<Seq<char>>::empty(),
        state_after(state, events) != LoopState::Connected,
    decreases events.len(),
{
    if events.len() > 0 {
        nothing_is_sent_after_the_loop_ends(LoopState::Closed, events.skip(1));
    }
}

/// Every event is answered by at most one reply.
pub proof fn at_most_one_reply_per_event(state: LoopState, events: Seq<EventView>)
    ensures
        sent(state, events).len() <= events.len(),
    decreases events.len(),
{
    if events.len() > 0 {
        at_most_one_reply_per_event(transition(state, events[0]).next, events.skip(1));
    }
}

/// Replies leave in the order of the events that caused them: what is sent
/// for one run of events followed by another is what is sent for the first,
/// followed by what is sent for the second from the state that the first
/// leaves.
pub proof fn replies_keep_the_order_of_events(
    state: LoopState,
    earlier: Seq<EventView>,
    later: Seq<EventView>,
)
    ensures
        sent(state, earlier + later) == sent(state, earlier) + sent(
            state_after(state, earlier),
            later,
        ),
        state_after(state, earlier + later) == state_after(state_after(state, earlier), later),
    decreases earlier.len(),
{
    if earlier.len() == 0 {
        assert(earlier + later =~= later);
    } else {
        let next = transition(state, earlier[0]).next;
        assert((earlier + later).skip(1) =~= earlier.skip(1) + later);
        assert((earlier + later)[0] == earlier[0]);
        replies_keep_the_order_of_events(next, earlier.skip(1), later);
    }
}

/// A text frame whose `type` is none that this client knows does not end the
/// loop and is not answered.
pub proof fn frame_of_unknown_kind_is_passed_over(text: Seq<char>, doc: serde_json::Value)
    requires
        document_of(text) == Some(doc),
        text_at(doc, "type"@) matches Some(kind) && !known_kind(kind),
    ensures
        decoded(text) == Err::<MessageView, DecodeError>(DecodeError::UnknownKind),
        transition(LoopState::Connected, EventView::Frame(FrameView::Text(text))).next
            == LoopState::Connected,
        transition(LoopState::Connected, EventView::Frame(FrameView::Text(text))).reply is None,
{
}

} // verus!
