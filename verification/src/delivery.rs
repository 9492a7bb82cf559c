//! What subscribers of one session can rely on, proved over the channel's log.

use crate::bus::{advanced, caught_up, delivered, history, oldest_held, pending, published,
    published_all, subscribed, DeliveryView, EventLog, MAX_EVENTS};
use crate::events::AssistantEventView;
use vstd::prelude::*;

verus! {

/// Subscribing twice to one session yields two subscriptions to one channel: the second
/// subscription makes no new channel and loses no history, and an event published after it
/// is what the second subscriber is handed next and the last thing that the first one is
/// handed; the first one is handed everything since it joined unless that is more than the
/// channel holds.
pub proof fn lemma_subscriptions_share_channel(
    logs: Map<Seq<char>, EventLog>,
    session: Seq<char>,
    between: EventLog,
    event: AssistantEventView,
)
    ensures
        ({
            let first = history(logs, session).len();
            let joined = published_all(subscribed(logs, session), session, between);
            let second = history(joined, session).len();
            let rejoined = subscribed(joined, session);
            let log = history(published(rejoined, session, event), session);
            &&& rejoined == joined
            &&& delivered(log, second) == DeliveryView::Event(event)
            &&& pending(log, second) == seq![event]
            &&& pending(log, first).len() > 0
            &&& pending(log, first).last() == event
            &&& between.len() < MAX_EVENTS ==> pending(log, first) == between.push(event)
        }),
{
    let before = history(logs, session);
    let first = before.len();
    let once = subscribed(logs, session);
    let joined = published_all(once, session, between);
    assert(history(once, session) == before);
    assert(history(joined, session) == before + between) by {
        if between.len() == 0 {
            assert(before + between =~= before);
        }
    }
    let second = history(joined, session).len();
    let rejoined = subscribed(joined, session);
    assert(rejoined =~= joined);
    let log = history(published(rejoined, session, event), session);
    assert(log == (before + between).push(event));
    assert(pending(log, second) =~= seq![event]);
    if between.len() < MAX_EVENTS {
        assert(pending(log, first) =~= between.push(event));
    }
}

/// A subscriber that joins a session late is handed nothing that was published before it
/// joined: right after joining nothing is pending, and whatever is pending later is the end
/// of what was published since, all of it unless more than the channel holds came in.
pub proof fn lemma_no_replay(log: EventLog, later: EventLog)
    ensures
        pending(log, log.len()) == Seq::<AssistantEventView>::empty(),
        delivered(log, log.len()) == DeliveryView::Empty,
        pending(log + later, log.len()).len() <= later.len(),
        pending(log + later, log.len()) == later.skip(
            later.len() - pending(log + later, log.len()).len(),
        ),
        later.len() <= MAX_EVENTS ==> pending(log + later, log.len()) == later,
{
    let all = log + later;
    let joined = log.len();
    let got = pending(all, joined);
    if later.len() == 0 {
        assert(got =~= later.skip(0));
        assert(got =~= later);
    } else if joined < oldest_held(all) {
        assert(got =~= later.skip(later.len() - got.len()));
    } else {
        assert(got =~= later);
        assert(later.skip(0) =~= later);
    }
}

/// Every delivery hands over the event at the subscriber's place in the log, in publication
/// order: a subscriber never sees an event twice and never sees two events out of order.
pub proof fn lemma_delivery_follows_log(log: EventLog, position: nat)
    ensures
        match delivered(log, position) {
            DeliveryView::Event(event) => event == log[position as int] && advanced(log, position)
                == position + 1,
            DeliveryView::Lagged(missed) => missed > 0 && advanced(log, position) == position
                + missed && delivered(log, advanced(log, position)) is Event,
            DeliveryView::Empty => advanced(log, position) == position,
        },
        position <= log.len() ==> pending(log, position) == log.skip(
            log.len() - pending(log, position).len(),
        ),
        caught_up(log, position) >= position,
{
    if position <= log.len() {
        let got = pending(log, position);
        assert(got =~= log.skip(log.len() - got.len()));
    }
}

/// Two subscribers of one session are both handed every event published while both are
/// subscribed, in the same order: what the window adds to the log ends what either of them
/// has pending, as long as the window fits into the channel.
pub proof fn lemma_subscribers_agree(log: EventLog, first: nat, second: nat, window: EventLog)
    requires
        first <= log.len(),
        second <= log.len(),
        window.len() <= MAX_EVENTS,
    ensures
        ({
            let seen_first = pending(log + window, first);
            let seen_second = pending(log + window, second);
            &&& window.len() <= seen_first.len()
            &&& window.len() <= seen_second.len()
            &&& seen_first.skip(seen_first.len() - window.len()) == window
            &&& seen_second.skip(seen_second.len() - window.len()) == window
        }),
{
    lemma_window_ends_pending(log, first, window);
    lemma_window_ends_pending(log, second, window);
}

proof fn lemma_window_ends_pending(log: EventLog, position: nat, window: EventLog)
    requires
        position <= log.len(),
        window.len() <= MAX_EVENTS,
    ensures
        window.len() <= pending(log + window, position).len(),
        pending(log + window, position).skip(
            pending(log + window, position).len() - window.len(),
        ) == window,
{
    let all = log + window;
    let seen = pending(all, position);
    if window.len() == 0 {
        assert(seen.skip(seen.len() as int) =~= window);
    } else {
        assert(seen.skip(seen.len() - window.len()) =~= window);
    }
}

/// Publishing in two batches is publishing the two batches as one: what a run publishes
/// step by step reaches the log exactly as the run's whole trace would.
pub proof fn lemma_batches_add_up(
    logs: Map<Seq<char>, EventLog>,
    session: Seq<char>,
    first: EventLog,
    second: EventLog,
)
    ensures
        published_all(published_all(logs, session, first), session, second) == published_all(
            logs,
            session,
            first + second,
        ),
        history(published_all(logs, session, first), session) == history(logs, session) + first,
{
    let before = history(logs, session);
    assert(before + Seq::<AssistantEventView>::empty() =~= before);
    if first.len() == 0 {
        assert(first + second =~= second);
    } else if second.len() == 0 {
        assert(first + second =~= first);
    } else {
        assert((before + first) + second =~= before + (first + second));
        assert(published_all(published_all(logs, session, first), session, second)
            =~= published_all(logs, session, first + second));
    }
}

} // verus!
