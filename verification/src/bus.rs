//! The session bus: one bounded broadcast channel per session, made on first use.
//!
//! A channel is described by its log, every event ever published to the session in order.
//! The channel holds the newest `MAX_EVENTS` of them; a subscriber is a position in the log.

use crate::error::{AppError, ErrorKind};
use crate::events::{event_views, AssistantEvent, AssistantEventView};
use crate::trusted::{bind_slot, find_slot, new_index, session_slots};
use dashmap::DashMap;
use vstd::prelude::*;
use vstd::string::StringExecFns;

verus! {

/// Number of events a session channel keeps for subscribers that fall behind.
pub const MAX_EVENTS: usize = 128;

/// Everything ever published to one session, oldest first.
pub type EventLog = Seq<AssistantEventView>;

/// Position of the oldest event of `log` that the channel still holds.
pub open spec fn oldest_held(log: EventLog) -> int {
    if log.len() > MAX_EVENTS {
        log.len() - MAX_EVENTS
    } else {
        0
    }
}

/// What one poll hands to a subscriber.
#[derive(Debug)]
pub enum Delivery {
    /// The next event in publication order.
    Event(AssistantEvent),
    /// The subscriber fell behind and this many events were skipped.
    Lagged(u64),
    /// Nothing has been published beyond the subscriber's position.
    Empty,
}

pub enum DeliveryView {
    Event(AssistantEventView),
    Lagged(nat),
    Empty,
}

impl View for Delivery {
    type V = DeliveryView;

    open spec fn view(&self) -> DeliveryView {
        match self {
            Delivery::Event(event) => DeliveryView::Event(event@),
            Delivery::Lagged(missed) => DeliveryView::Lagged(*missed as nat),
            Delivery::Empty => DeliveryView::Empty,
        }
    }
}

/// What a subscriber at `position` is handed by its next poll of `log`.
pub open spec fn delivered(log: EventLog, position: nat) -> DeliveryView {
    if position >= log.len() {
        DeliveryView::Empty
    } else if position < oldest_held(log) {
        DeliveryView::Lagged((oldest_held(log) - position) as nat)
    } else {
        DeliveryView::Event(log[position as int])
    }
}

/// Where a subscriber at `position` stands after its next poll of `log`.
pub open spec fn advanced(log: EventLog, position: nat) -> nat {
    if position >= log.len() {
        position
    } else if position < oldest_held(log) {
        oldest_held(log) as nat
    } else {
        position + 1
    }
}

/// The events a subscriber at `position` is handed when it polls `log` until nothing is left.
pub open spec fn pending(log: EventLog, position: nat) -> EventLog {
    if position >= log.len() {
        Seq::empty()
    } else if position < oldest_held(log) {
        log.subrange(oldest_held(log), log.len() as int)
    } else {
        log.subrange(position as int, log.len() as int)
    }
}

/// Where a subscriber at `position` stands once it has polled `log` until nothing is left.
pub open spec fn caught_up(log: EventLog, position: nat) -> nat {
    if position >= log.len() {
        position
    } else {
        log.len()
    }
}

/// The logs after one more event for `session`; a session without a log gets one.
pub open spec fn published(logs: Map<Seq<char>, EventLog>, session: Seq<char>, event: AssistantEventView)
    -> Map<Seq<char>, EventLog> {
    logs.insert(session, history(logs, session).push(event))
}

/// The logs after `events` were published to `session` in order; nothing changes when there
/// are none.
pub open spec fn published_all(
    logs: Map<Seq<char>, EventLog>,
    session: Seq<char>,
    events: EventLog,
) -> Map<Seq<char>, EventLog> {
    if events.len() == 0 {
        logs
    } else {
        logs.insert(session, history(logs, session) + events)
    }
}

/// The logs after a subscription to `session`; a session without a log gets an empty one.
pub open spec fn subscribed(logs: Map<Seq<char>, EventLog>, session: Seq<char>) -> Map<
    Seq<char>,
    EventLog,
> {
    logs.insert(session, history(logs, session))
}

/// The log of `session`, empty when it has none.
pub open spec fn history(logs: Map<Seq<char>, EventLog>, session: Seq<char>) -> EventLog {
    if logs.dom().contains(session) {
        logs[session]
    } else {
        Seq::empty()
    }
}

/// A subscriber's handle: the session it listens to and how far it has read.
#[derive(Debug)]
pub struct Receiver {
    session: String,
    next: u64,
}

pub struct ReceiverView {
    pub session: Seq<char>,
    pub position: nat,
}

impl View for Receiver {
    type V = ReceiverView;

    closed spec fn view(&self) -> ReceiverView {
        ReceiverView { session: self.session@, position: self.next as nat }
    }
}

impl Receiver {
    pub fn session(&self) -> (session: String)
        ensures
            session@ == self@.session,
    {
        self.session.clone()
    }

    /// Number of events of the session's log that lie before this subscriber.
    pub fn position(&self) -> (position: u64)
        ensures
            position == self@.position,
    {
        self.next
    }
}

struct Channel {
    session: String,
    held: Vec<AssistantEvent>,
    evicted: u64,
    log: Ghost<EventLog>,
}

impl Channel {
    spec fn wf(&self) -> bool {
        &&& self.held.len() <= MAX_EVENTS
        &&& self.log@.len() == self.evicted + self.held.len()
        &&& self.log@.len() <= u64::MAX
        &&& self.evicted > 0 ==> self.held.len() == MAX_EVENTS
        &&& forall|i: int|
            0 <= i < self.held.len() ==> (#[trigger] self.held[i])@ == self.log@[self.evicted + i]
    }

    fn new(session: &str) -> (channel: Channel)
        ensures
            channel.wf(),
            channel.session@ == session@,
            channel.log@ == Seq::<AssistantEventView>::empty(),
    {
        Channel {
            session: String::from_str(session),
            held: Vec::new(),
            evicted: 0,
            log: Ghost(Seq::empty()),
        }
    }

    fn total(&self) -> (total: u64)
        requires
            self.wf(),
        ensures
            total == self.log@.len(),
    {
        self.evicted + self.held.len() as u64
    }

    fn push(&mut self, event: AssistantEvent)
        requires
            old(self).wf(),
            old(self).log@.len() < u64::MAX,
        ensures
            final(self).wf(),
            final(self).session == old(self).session,
            final(self).log@ == old(self).log@.push(event@),
    {
        if self.held.len() == MAX_EVENTS {
            let _ = self.held.remove(0);
            self.evicted = self.evicted + 1;
        }
        self.held.push(event);
        proof {
            self.log@ = self.log@.push(event@);
        }
    }

    fn poll(&self, next: u64) -> (outcome: (Delivery, u64))
        requires
            self.wf(),
        ensures
            outcome.0@ == delivered(self.log@, next as nat),
            outcome.1 == advanced(self.log@, next as nat),
    {
        let total = self.total();
        if next >= total {
            (Delivery::Empty, next)
        } else if next < self.evicted {
            (Delivery::Lagged(self.evicted - next), self.evicted)
        } else {
            let offset: usize = (next - self.evicted) as usize;
            (Delivery::Event(self.held[offset].clone()), next + 1)
        }
    }
}

/// The session bus: for each session identifier at most one channel, made on first use and
/// kept for as long as the registry lives.
pub struct Registry {
    index: DashMap<String, usize>,
    channels: Vec<Channel>,
}

impl Registry {
    /// The invariant that every operation keeps: each bound session has exactly one channel.
    pub closed spec fn wf(&self) -> bool {
        &&& forall|session: Seq<char>| #[trigger]
            session_slots(self.index).dom().contains(session) ==> {
                &&& session_slots(self.index)[session] < self.channels.len()
                &&& self.channels[session_slots(self.index)[session] as int].session@ == session
            }
        &&& forall|i: int|
            0 <= i < self.channels.len() ==> (#[trigger] self.channels[i]).wf()
    }

    /// The full publication history of every session that has a channel.
    pub closed spec fn logs(&self) -> Map<Seq<char>, EventLog> {
        Map::new(
            |session: Seq<char>| session_slots(self.index).dom().contains(session),
            |session: Seq<char>| self.channels[session_slots(self.index)[session] as int].log@,
        )
    }

    /// Number of events ever published to `session`.
    pub open spec fn count(&self, session: Seq<char>) -> nat {
        history(self.logs(), session).len()
    }

    pub fn new() -> (registry: Registry)
        ensures
            registry.wf(),
            registry.logs() == Map::<Seq<char>, EventLog>::empty(),
    {
        let registry = Registry { index: new_index(), channels: Vec::new() };
        assert(registry.logs() =~= Map::<Seq<char>, EventLog>::empty());
        registry
    }

    /// Whether `session_id` has a channel.
    pub fn contains(&self, session_id: &str) -> (present: bool)
        requires
            self.wf(),
        ensures
            present == self.logs().dom().contains(session_id@),
    {
        find_slot(&self.index, session_id).is_some()
    }

    /// Number of events ever published to `session_id`.
    pub fn published_count(&self, session_id: &str) -> (total: u64)
        requires
            self.wf(),
        ensures
            total == self.count(session_id@),
    {
        match find_slot(&self.index, session_id) {
            Some(slot) => self.channels[slot].total(),
            None => 0,
        }
    }

    fn slot_for(&mut self, session_id: &str) -> (slot: usize)
        requires
            old(self).wf(),
        ensures
            final(self).wf(),
            final(self).logs() == subscribed(old(self).logs(), session_id@),
            session_slots(final(self).index).dom().contains(session_id@),
            session_slots(final(self).index)[session_id@] == slot,
    {
        match find_slot(&self.index, session_id) {
            Some(slot) => {
                assert(self.logs() =~= subscribed(self.logs(), session_id@));
                slot
            },
            None => {
                let slot = self.channels.len();
                let ghost before = *self;
                self.channels.push(Channel::new(session_id));
                bind_slot(&mut self.index, String::from_str(session_id), slot);
                assert forall|session: Seq<char>| #[trigger]
                    session_slots(self.index).dom().contains(session) implies {
                    &&& session_slots(self.index)[session] < self.channels.len()
                    &&& self.channels[session_slots(self.index)[session] as int].session@
                        == session
                } by {
                    if session != session_id@ {
                        assert(session_slots(before.index).dom().contains(session));
                    }
                }
                assert forall|i: int| 0 <= i < self.channels.len() implies (
                #[trigger] self.channels[i]).wf() by {
                    if i < before.channels.len() {
                        assert(before.channels[i].wf());
                    }
                }
                assert(self.logs() =~= subscribed(before.logs(), session_id@)) by {
                    assert forall|session: Seq<char>|
                        self.logs().dom().contains(session) implies #[trigger] self.logs()[session]
                        == subscribed(before.logs(), session_id@)[session] by {
                        if session != session_id@ {
                            assert(session_slots(before.index).dom().contains(session));
                        }
                    }
                }
                slot
            },
        }
    }

    /// A new subscription to the channel of `session_id`, which is made first when the session
    /// has none. The subscriber stands at the end of the log: it is handed what is published
    /// from now on and nothing from before.
    pub fn get_or_create_receiver(&mut self, session_id: &str) -> (receiver: Receiver)
        requires
            old(self).wf(),
        ensures
            final(self).wf(),
            final(self).logs() == subscribed(old(self).logs(), session_id@),
            receiver@.session == session_id@,
            receiver@.position == old(self).count(session_id@),
    {
        let slot = self.slot_for(session_id);
        assert(self.logs()[session_id@] == self.channels[slot as int].log@);
        let next = self.channels[slot].total();
        Receiver { session: String::from_str(session_id), next }
    }

    /// Appends `event` to the log of `session_id`, whose channel is made first when the
    /// session has none; every other session is left as it was. Having no subscriber is no
    /// failure, so the result is always `Ok`.
    pub fn publish(&mut self, session_id: &str, event: AssistantEvent) -> (sent: Result<
        (),
        AppError,
    >)
        requires
            old(self).wf(),
            old(self).count(session_id@) < u64::MAX,
        ensures
            final(self).wf(),
            sent is Ok,
            final(self).logs() == published(old(self).logs(), session_id@, event@),
    {
        let ghost before = *self;
        let slot = self.slot_for(session_id);
        let ghost between = *self;
        assert(between.logs()[session_id@] == between.channels[slot as int].log@);
        assert(between.channels[slot as int].wf());
        self.channels[slot].push(event);
        proof {
            assert forall|session: Seq<char>| #[trigger]
                session_slots(self.index).dom().contains(session) implies {
                &&& session_slots(self.index)[session] < self.channels.len()
                &&& self.channels[session_slots(self.index)[session] as int].session@ == session
            } by {
                let bound = session_slots(between.index)[session] as int;
                assert(between.channels[bound].session@ == session);
            }
            assert forall|i: int| 0 <= i < self.channels.len() implies (
            #[trigger] self.channels[i]).wf() by {
                assert(between.channels[i].wf());
            }
            assert(between.channels[slot as int].session@ == session_id@);
            assert(self.index == between.index);
            assert(self.logs().dom() =~= between.logs().dom());
            assert(between.logs().dom() =~= before.logs().dom().insert(session_id@));
            assert(self.logs().dom() =~= published(before.logs(), session_id@, event@).dom());
            assert forall|session: Seq<char>|
                self.logs().dom().contains(session) implies #[trigger] self.logs()[session]
                == published(before.logs(), session_id@, event@)[session] by {
                let bound = session_slots(between.index)[session] as int;
                assert(between.channels[bound].session@ == session);
                assert(between.logs()[session] == between.channels[bound].log@);
                if session == session_id@ {
                    assert(bound == slot);
                } else {
                    assert(bound != slot);
                    assert(self.channels[bound] == between.channels[bound]);
                }
            }
            assert(self.logs() =~= published(before.logs(), session_id@, event@));
        }
        Ok(())
    }

    /// Hands the subscriber its next delivery and moves it on. A subscriber that fell more
    /// than `MAX_EVENTS` behind is told how many events it missed and resumes at the oldest
    /// event still held. Fails with `NotFound` exactly when the subscriber's session has no
    /// channel here; the subscriber is then left where it was.
    pub fn poll(&self, receiver: &mut Receiver) -> (outcome: Result<Delivery, AppError>)
        requires
            self.wf(),
        ensures
            final(receiver)@.session == old(receiver)@.session,
            self.logs().dom().contains(old(receiver)@.session) ==> {
                &&& outcome matches Ok(delivery)
                &&& delivery@ == delivered(
                    self.logs()[old(receiver)@.session],
                    old(receiver)@.position,
                )
                &&& final(receiver)@.position == advanced(
                    self.logs()[old(receiver)@.session],
                    old(receiver)@.position,
                )
            },
            !self.logs().dom().contains(old(receiver)@.session) ==> {
                &&& outcome matches Err(failure)
                &&& failure@.kind == ErrorKind::NotFound
                &&& failure@.message == "session not found"@
                &&& final(receiver)@ == old(receiver)@
            },
    {
        match find_slot(&self.index, receiver.session.as_str()) {
            Some(slot) => {
                let (delivery, next) = self.channels[slot].poll(receiver.next);
                receiver.next = next;
                Ok(delivery)
            },
            None => Err(AppError::new(ErrorKind::NotFound, "session not found")),
        }
    }

    /// Publishes `events` to `session_id` one after the other, as `publish` does.
    pub fn publish_all(&mut self, session_id: &str, events: &Vec<AssistantEvent>)
        requires
            old(self).wf(),
            old(self).count(session_id@) + events.len() <= u64::MAX,
        ensures
            final(self).wf(),
            final(self).logs() == published_all(
                old(self).logs(),
                session_id@,
                event_views(events@),
            ),
    {
        let ghost before = self.logs();
        let mut done: usize = 0;
        while done < events.len()
            invariant
                self.wf(),
                done <= events.len(),
                history(before, session_id@).len() + events.len() <= u64::MAX,
                self.logs() == published_all(
                    before,
                    session_id@,
                    event_views(events@).take(done as int),
                ),
            decreases events.len() - done,
        {
            let ghost so_far = event_views(events@).take(done as int);
            let ghost reached = self.logs();
            assert(history(reached, session_id@) == history(before, session_id@) + so_far) by {
                assert(history(before, session_id@) + Seq::<AssistantEventView>::empty()
                    =~= history(before, session_id@));
            }
            let _ = self.publish(session_id, events[done].clone());
            done = done + 1;
            proof {
                let now = event_views(events@).take(done as int);
                assert(now =~= so_far.push(events@[done - 1]@));
                assert(history(before, session_id@) + now =~= (history(before, session_id@)
                    + so_far).push(events@[done - 1]@));
                assert(self.logs() =~= published_all(before, session_id@, now));
            }
        }
        assert(event_views(events@).take(events.len() as int) =~= event_views(events@));
    }

    /// Polls until nothing is left and hands back the events in publication order; lag
    /// notifications are passed over. Fails with `NotFound` exactly when the subscriber's
    /// session has no channel here.
    pub fn drain(&self, receiver: &mut Receiver) -> (outcome: Result<Vec<AssistantEvent>, AppError>)
        requires
            self.wf(),
        ensures
            final(receiver)@.session == old(receiver)@.session,
            self.logs().dom().contains(old(receiver)@.session) ==> {
                &&& outcome matches Ok(events)
                &&& event_views(events@) == pending(
                    self.logs()[old(receiver)@.session],
                    old(receiver)@.position,
                )
                &&& final(receiver)@.position == caught_up(
                    self.logs()[old(receiver)@.session],
                    old(receiver)@.position,
                )
            },
            !self.logs().dom().contains(old(receiver)@.session) ==> {
                &&& outcome matches Err(failure)
                &&& failure@.kind == ErrorKind::NotFound
                &&& failure@.message == "session not found"@
                &&& final(receiver)@ == old(receiver)@
            },
    {
        let mut events: Vec<AssistantEvent> = Vec::new();
        if !self.contains(receiver.session.as_str()) {
            return Err(AppError::new(ErrorKind::NotFound, "session not found"));
        }
        let ghost log = self.logs()[receiver@.session];
        let ghost start = receiver@.position;
        assert(event_views(events@) + pending(log, start) =~= pending(log, start));
        loop
            invariant
                self.wf(),
                receiver@.session == old(receiver)@.session,
                self.logs().dom().contains(receiver@.session),
                log == self.logs()[receiver@.session],
                start == old(receiver)@.position,
                pending(log, start) == event_views(events@) + pending(log, receiver@.position),
                caught_up(log, start) == caught_up(log, receiver@.position),
            ensures
                receiver@.session == old(receiver)@.session,
                event_views(events@) == pending(log, start),
                receiver@.position == caught_up(log, start),
            decreases log.len() - receiver@.position,
        {
            let ghost position = receiver@.position;
            let ghost collected = event_views(events@);
            match self.poll(receiver) {
                Ok(Delivery::Event(event)) => {
                    proof {
                        assert(pending(log, position) =~= seq![event@] + pending(
                            log,
                            (position + 1) as nat,
                        ));
                        assert(event_views(events@.push(event)) =~= collected.push(event@));
                        assert(collected.push(event@) + pending(log, (position + 1) as nat)
                            =~= collected + (seq![event@] + pending(
                            log,
                            (position + 1) as nat,
                        )));
                    }
                    events.push(event);
                },
                Ok(Delivery::Lagged(_)) => {},
                _ => {
                    assert(pending(log, position) =~= Seq::<AssistantEventView>::empty());
                    assert(collected + pending(log, position) =~= collected);
                    break ;
                },
            }
        }
        Ok(events)
    }
}

} // verus!
