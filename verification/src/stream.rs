//! The live stream of a session: a subscription turned into frames and keep-alives.

use crate::bus::{advanced, delivered, history, subscribed, Delivery, DeliveryView, EventLog, Receiver,
    Registry};
use crate::events::{turn_of, AssistantEvent, AssistantEventView};
use vstd::prelude::*;
use vstd::string::StringExecFns;

verus! {

/// A live stream that has delivered nothing for this long sends a keep-alive.
pub const KEEP_ALIVE_MILLIS: u64 = 1000;

/// The comment that a keep-alive carries.
pub fn keep_alive_comment() -> (comment: &'static str)
    ensures
        comment@ == "keep-alive-text"@,
{
    "keep-alive-text"
}

/// The event-type tag under which an event is delivered.
pub open spec fn frame_name(event: AssistantEventView) -> Seq<char> {
    match event {
        AssistantEventView::Signal(_) => "signal"@,
        AssistantEventView::InputSkeleton(_) => "input_skeleton"@,
        AssistantEventView::Input(_) => "input"@,
        AssistantEventView::ReplySkeleton(_) => "reply_skeleton"@,
        AssistantEventView::Reply(_) => "reply"@,
    }
}

/// The correlation id of a frame: the event's turn, or nothing for an event without one.
pub open spec fn frame_id(event: AssistantEventView) -> Seq<char> {
    match turn_of(event) {
        Some(id) => id,
        None => Seq::empty(),
    }
}

/// One deliverable unit of a live stream.
#[derive(Debug)]
pub struct Frame {
    pub name: String,
    pub id: String,
    pub event: AssistantEvent,
}

pub struct FrameView {
    pub name: Seq<char>,
    pub id: Seq<char>,
    pub event: AssistantEventView,
}

impl View for Frame {
    type V = FrameView;

    open spec fn view(&self) -> FrameView {
        FrameView { name: self.name@, id: self.id@, event: self.event@ }
    }
}

pub open spec fn framed(event: AssistantEventView) -> FrameView {
    FrameView { name: frame_name(event), id: frame_id(event), event }
}

/// Wraps an event with its tag and correlation id.
pub fn frame_of(event: AssistantEvent) -> (frame: Frame)
    ensures
        frame@ == framed(event@),
{
    let (name, id) = match &event {
        AssistantEvent::Signal(_) => ("signal", String::new()),
        AssistantEvent::InputSkeleton(skeleton) => ("input_skeleton", skeleton.id.clone()),
        AssistantEvent::Input(input) => ("input", input.id.clone()),
        AssistantEvent::ReplySkeleton(skeleton) => ("reply_skeleton", skeleton.id.clone()),
        AssistantEvent::Reply(reply) => ("reply", reply.id.clone()),
    };
    Frame { name: String::from_str(name), id, event }
}

/// What a live stream yields when it is asked for its next item.
#[derive(Debug)]
pub enum StreamOutput {
    /// The next event, framed.
    Frame(Frame),
    /// Nothing was delivered for a full keep-alive interval.
    KeepAlive,
    /// Nothing to send yet.
    Idle,
}

pub enum StreamOutputView {
    Frame(FrameView),
    KeepAlive,
    Idle,
}

impl View for StreamOutput {
    type V = StreamOutputView;

    open spec fn view(&self) -> StreamOutputView {
        match self {
            StreamOutput::Frame(frame) => StreamOutputView::Frame(frame@),
            StreamOutput::KeepAlive => StreamOutputView::KeepAlive,
            StreamOutput::Idle => StreamOutputView::Idle,
        }
    }
}

/// A subscription turned into a sequence of frames and keep-alives.
#[derive(Debug)]
pub struct LiveStream {
    receiver: Receiver,
    quiet_millis: u64,
}

pub struct LiveStreamView {
    pub session: Seq<char>,
    pub position: nat,
    pub quiet_millis: nat,
}

impl View for LiveStream {
    type V = LiveStreamView;

    closed spec fn view(&self) -> LiveStreamView {
        LiveStreamView {
            session: self.receiver@.session,
            position: self.receiver@.position,
            quiet_millis: self.quiet_millis as nat,
        }
    }
}

/// Where a subscriber stands once a pending lag notification has been passed over.
pub open spec fn past_lag(log: EventLog, position: nat) -> nat {
    if delivered(log, position) is Lagged {
        advanced(log, position)
    } else {
        position
    }
}

/// The stream after it was asked for its next item, `elapsed` milliseconds after the
/// previous time.
pub open spec fn stream_after(stream: LiveStreamView, log: EventLog, elapsed: nat)
    -> LiveStreamView {
    let at = past_lag(log, stream.position);
    if delivered(log, at) is Event {
        LiveStreamView { session: stream.session, position: at + 1, quiet_millis: 0 }
    } else if stream.quiet_millis + elapsed >= KEEP_ALIVE_MILLIS {
        LiveStreamView { session: stream.session, position: at, quiet_millis: 0 }
    } else {
        LiveStreamView {
            session: stream.session,
            position: at,
            quiet_millis: stream.quiet_millis + elapsed,
        }
    }
}

/// The item that the stream yields, `elapsed` milliseconds after the previous time.
pub open spec fn stream_output(stream: LiveStreamView, log: EventLog, elapsed: nat)
    -> StreamOutputView {
    match delivered(log, past_lag(log, stream.position)) {
        DeliveryView::Event(event) => StreamOutputView::Frame(framed(event)),
        _ => if stream.quiet_millis + elapsed >= KEEP_ALIVE_MILLIS {
            StreamOutputView::KeepAlive
        } else {
            StreamOutputView::Idle
        },
    }
}

impl LiveStream {
    /// Opens the live stream of `session_id`; a session without a channel gets one. The
    /// stream starts at the end of the session's log.
    pub fn open(registry: &mut Registry, session_id: &str) -> (stream: LiveStream)
        requires
            old(registry).wf(),
        ensures
            final(registry).wf(),
            final(registry).logs() == subscribed(old(registry).logs(), session_id@),
            stream@ == (LiveStreamView {
                session: session_id@,
                position: old(registry).count(session_id@),
                quiet_millis: 0,
            }),
    {
        LiveStream { receiver: registry.get_or_create_receiver(session_id), quiet_millis: 0 }
    }

    /// The next item of the stream, asked for `elapsed_millis` after the previous one. Lag
    /// notifications and a missing channel are passed over in silence: neither ends the
    /// stream. A keep-alive is due once nothing was delivered for `KEEP_ALIVE_MILLIS`.
    pub fn next(&mut self, registry: &Registry, elapsed_millis: u64) -> (output: StreamOutput)
        requires
            registry.wf(),
        ensures
            output@ == stream_output(
                old(self)@,
                history(registry.logs(), old(self)@.session),
                elapsed_millis as nat,
            ),
            final(self)@ == stream_after(
                old(self)@,
                history(registry.logs(), old(self)@.session),
                elapsed_millis as nat,
            ),
    {
        let first = registry.poll(&mut self.receiver);
        let delivery = match first {
            Ok(Delivery::Lagged(_)) => registry.poll(&mut self.receiver),
            other => other,
        };
        match delivery {
            Ok(Delivery::Event(event)) => {
                self.quiet_millis = 0;
                StreamOutput::Frame(frame_of(event))
            },
            _ => {
                if self.quiet_millis >= KEEP_ALIVE_MILLIS || elapsed_millis >= KEEP_ALIVE_MILLIS
                    - self.quiet_millis {
                    self.quiet_millis = 0;
                    StreamOutput::KeepAlive
                } else {
                    self.quiet_millis = self.quiet_millis + elapsed_millis;
                    StreamOutput::Idle
                }
            },
        }
    }
}

} // verus!
