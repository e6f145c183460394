use vstd::prelude::*;

use crate::relevance::{event_is_relevant, is_relevant_event, ChangeKind};

verus! {

/// Quiet period, in milliseconds, after the most recent relevant change
/// before a synchronization runs (four and a half minutes).
pub const DEBOUNCE_WINDOW_MS: u64 = 270000;

/// What the event source delivered to the loop, or why the wait ended.
pub enum Incoming {
    /// A change notification: its kind, and each path's components below the
    /// watched root (`None` for a path outside it).
    Change { kind: ChangeKind, paths: Vec<Option<Vec<String>>> },
    /// The watch mechanism reported an error for one notification.
    SourceError,
    /// The deadline of the wait passed with nothing delivered.
    TimedOut,
    /// The event source is gone.
    Closed,
}

/// What the loop does next after asking the scheduler.
#[derive(Clone, Copy, Debug, PartialEq, Eq, Structural)]
pub enum Poll {
    /// Run the synchronization now; the scheduler is idle again.
    Fire,
    /// Wait for the next event at most this many milliseconds.
    WaitFor(u64),
    /// Wait for the next event without a deadline.
    WaitForever,
}

/// How the scheduler took an incoming item.
#[derive(Clone, Copy, Debug, PartialEq, Eq, Structural)]
pub enum Reaction {
    /// A relevant change: a synchronization is pending from now on.
    Armed,
    /// Nothing to do: an irrelevant change, or a deadline to check again.
    Ignored,
    /// A source error, to be logged; the loop goes on.
    SourceErrorReported,
    /// The source is closed: the loop ends.
    Shutdown,
}

/// Time passed since `since`, never negative.
pub open spec fn elapsed(since: u64, now: u64) -> int {
    if now >= since {
        now - since
    } else {
        0
    }
}

/// The pending state and decision after a poll at `now`.
pub open spec fn poll_result(pending: Option<u64>, now: u64) -> (Option<u64>, Poll) {
    match pending {
        None => (None, Poll::WaitForever),
        Some(since) => if elapsed(since, now) >= DEBOUNCE_WINDOW_MS {
            (None, Poll::Fire)
        } else {
            (Some(since), Poll::WaitFor((DEBOUNCE_WINDOW_MS - elapsed(since, now)) as u64))
        },
    }
}

/// Whether an incoming item is a change that counts towards a synchronization.
pub open spec fn is_relevant_incoming(event: Incoming) -> bool {
    match event {
        Incoming::Change { kind, paths } => is_relevant_event(kind, paths@),
        _ => false,
    }
}

/// The pending state and reaction after taking `event` at `now`.
pub open spec fn handle_result(pending: Option<u64>, event: Incoming, now: u64) -> (
    Option<u64>,
    Reaction,
) {
    match event {
        Incoming::Change { .. } => if is_relevant_incoming(event) {
            (Some(now), Reaction::Armed)
        } else {
            (pending, Reaction::Ignored)
        },
        Incoming::SourceError => (pending, Reaction::SourceErrorReported),
        Incoming::TimedOut => (pending, Reaction::Ignored),
        Incoming::Closed => (pending, Reaction::Shutdown),
    }
}

/// The debounce scheduler: idle, or pending since the most recent relevant
/// change (a time in milliseconds of a monotonic clock).
pub struct Scheduler {
    pub pending: Option<u64>,
}

impl Scheduler {
    /// A scheduler at startup: idle.
    pub fn new() -> (r: Scheduler)
        ensures
            r.pending is None,
    {
        Scheduler { pending: None }
    }

    /// Whether a synchronization is pending.
    pub fn is_pending(&self) -> (r: bool)
        ensures
            r == self.pending is Some,
    {
        self.pending.is_some()
    }

    /// Decides, at time `now`, whether to fire the synchronization or how long
    /// to wait for the next event. Firing makes the scheduler idle.
    pub fn poll(&mut self, now: u64) -> (r: Poll)
        ensures
            (final(self).pending, r) == poll_result(old(self).pending, now),
    {
        match self.pending {
            None => Poll::WaitForever,
            Some(since) => {
                let passed: u64 = if now >= since {
                    now - since
                } else {
                    0
                };
                if passed >= DEBOUNCE_WINDOW_MS {
                    self.pending = None;
                    Poll::Fire
                } else {
                    Poll::WaitFor(DEBOUNCE_WINDOW_MS - passed)
                }
            },
        }
    }

    /// Takes one incoming item at time `now`. A relevant change makes the
    /// synchronization pending from `now`; nothing else changes the state.
    pub fn handle(&mut self, event: &Incoming, now: u64) -> (r: Reaction)
        ensures
            (final(self).pending, r) == handle_result(old(self).pending, *event, now),
    {
        match event {
            Incoming::Change { kind, paths } => {
                if event_is_relevant(*kind, paths) {
                    self.pending = Some(now);
                    Reaction::Armed
                } else {
                    Reaction::Ignored
                }
            },
            Incoming::SourceError => Reaction::SourceErrorReported,
            Incoming::TimedOut => Reaction::Ignored,
            Incoming::Closed => Reaction::Shutdown,
        }
    }
}

/// Runs the loop over timed incoming items, from the pending state `pending`:
/// before each item the scheduler is polled at the item's time, then the item
/// is taken. The result is the final pending state and the number of
/// synchronizations fired.
pub open spec fn run_events(pending: Option<u64>, events: Seq<(u64, Incoming)>) -> (
    Option<u64>,
    nat,
)
    decreases events.len(),
{
    if events.len() == 0 {
        (pending, 0)
    } else {
        let polled = poll_result(pending, events[0].0);
        let taken = handle_result(polled.0, events[0].1, events[0].0);
        let rest = run_events(taken.0, events.drop_first());
        (rest.0, rest.1 + if polled.1 == Poll::Fire {
            1nat
        } else {
            0nat
        })
    }
}

/// Relevant changes at non-decreasing times, each less than the debounce
/// window after the one before.
pub open spec fn is_burst(events: Seq<(u64, Incoming)>) -> bool {
    &&& forall|i: int| 0 <= i < events.len() ==> is_relevant_incoming(#[trigger] events[i].1)
    &&& forall|i: int|
        0 < i < events.len() ==> events[i - 1].0 <= #[trigger] events[i].0 && events[i].0
            - events[i - 1].0 < DEBOUNCE_WINDOW_MS
}

proof fn lemma_burst_from(pending: Option<u64>, events: Seq<(u64, Incoming)>)
    requires
        events.len() > 0,
        is_burst(events),
        match pending {
            None => true,
            Some(s) => s <= events[0].0 && events[0].0 - s < DEBOUNCE_WINDOW_MS,
        },
    ensures
        run_events(pending, events) == (Some(events.last().0), 0nat),
    decreases events.len(),
{
    assert(is_relevant_incoming(events[0].1));
    if events.len() > 1 {
        let rest = events.drop_first();
        assert(events[0].0 <= events[1].0);
        assert forall|i: int| 0 < i < rest.len() implies rest[i - 1].0 <= #[trigger] rest[i].0
            && rest[i].0 - rest[i - 1].0 < DEBOUNCE_WINDOW_MS by {
            assert(events[i].0 <= events[i + 1].0);
        }
        assert forall|i: int| 0 <= i < rest.len() implies is_relevant_incoming(
            #[trigger] rest[i].1,
        ) by {
            assert(is_relevant_incoming(events[i + 1].1));
        }
        lemma_burst_from(Some(events[0].0), rest);
        assert(rest.last() == events.last());
    } else {
        assert(run_events(Some(events[0].0), events.drop_first()) == (Some(events[0].0), 0nat));
    }
}

proof fn lemma_run_concat(pending: Option<u64>, a: Seq<(u64, Incoming)>, b: Seq<(u64, Incoming)>)
    ensures
        run_events(pending, a + b) == (
            run_events(run_events(pending, a).0, b).0,
            run_events(pending, a).1 + run_events(run_events(pending, a).0, b).1,
        ),
    decreases a.len(),
{
    if a.len() > 0 {
        let polled = poll_result(pending, a[0].0);
        let taken = handle_result(polled.0, a[0].1, a[0].0);
        assert((a + b).drop_first() =~= a.drop_first() + b);
        assert((a + b)[0] == a[0]);
        lemma_run_concat(taken.0, a.drop_first(), b);
    } else {
        assert(a + b =~= b);
    }
}

/// A pending scheduler that then takes only items that are not relevant
/// changes fires exactly once, at the first poll once the debounce window has
/// passed since the pending change, and stays idle after it whatever follows;
/// if no poll comes that late, it fires nothing and stays pending.
pub proof fn quiet_pending_fires_once(last: u64, quiet: Seq<(u64, Incoming)>)
    requires
        forall|i: int| 0 <= i < quiet.len() ==> !is_relevant_incoming(#[trigger] quiet[i].1),
    ensures
        run_events(Some(last), quiet) == if exists|i: int|
            0 <= i < quiet.len() && elapsed(last, #[trigger] quiet[i].0) >= DEBOUNCE_WINDOW_MS {
            (None::<u64>, 1nat)
        } else {
            (Some(last), 0nat)
        },
    decreases quiet.len(),
{
    if quiet.len() > 0 {
        assert(!is_relevant_incoming(quiet[0].1));
        let rest = quiet.drop_first();
        assert forall|i: int| 0 <= i < rest.len() implies !is_relevant_incoming(
            #[trigger] rest[i].1,
        ) by {
            assert(!is_relevant_incoming(quiet[i + 1].1));
        }
        if elapsed(last, quiet[0].0) >= DEBOUNCE_WINDOW_MS {
            irrelevant_events_never_fire(rest);
        } else {
            quiet_pending_fires_once(last, rest);
            if exists|i: int|
                0 <= i < quiet.len() && elapsed(last, #[trigger] quiet[i].0) >= DEBOUNCE_WINDOW_MS {
                let i = choose|i: int|
                    0 <= i < quiet.len() && elapsed(last, #[trigger] quiet[i].0)
                        >= DEBOUNCE_WINDOW_MS;
                assert(rest[i - 1] == quiet[i]);
            }
            if exists|i: int|
                0 <= i < rest.len() && elapsed(last, #[trigger] rest[i].0) >= DEBOUNCE_WINDOW_MS {
                let i = choose|i: int|
                    0 <= i < rest.len() && elapsed(last, #[trigger] rest[i].0)
                        >= DEBOUNCE_WINDOW_MS;
                assert(quiet[i + 1] == rest[i]);
            }
        }
    }
}

/// A burst of relevant changes, each arriving before the debounce window has
/// passed since the one before, fires nothing while it lasts and leaves the
/// scheduler pending since the last change; a poll then waits exactly until
/// the window has passed since that last change. Whatever irrelevant items
/// follow, exactly one synchronization fires, at the first poll once the
/// window has passed since the last change, and the scheduler is idle after
/// it; if no such poll comes, nothing fires.
pub proof fn burst_fires_once_after_last(
    events: Seq<(u64, Incoming)>,
    quiet: Seq<(u64, Incoming)>,
    now: u64,
)
    requires
        events.len() > 0,
        is_burst(events),
        forall|i: int| 0 <= i < quiet.len() ==> !is_relevant_incoming(#[trigger] quiet[i].1),
        now >= events.last().0,
    ensures
        run_events(None, events) == (Some(events.last().0), 0nat),
        now - events.last().0 < DEBOUNCE_WINDOW_MS ==> poll_result(Some(events.last().0), now)
            == (Some(events.last().0), Poll::WaitFor(
            (events.last().0 + DEBOUNCE_WINDOW_MS - now) as u64,
        )),
        now - events.last().0 >= DEBOUNCE_WINDOW_MS ==> poll_result(Some(events.last().0), now)
            == (None::<u64>, Poll::Fire),
        run_events(None, events + quiet) == if exists|i: int|
            0 <= i < quiet.len() && elapsed(events.last().0, #[trigger] quiet[i].0)
                >= DEBOUNCE_WINDOW_MS {
            (None::<u64>, 1nat)
        } else {
            (Some(events.last().0), 0nat)
        },
{
    lemma_burst_from(None, events);
    lemma_run_concat(None, events, quiet);
    quiet_pending_fires_once(events.last().0, quiet);
}

/// Once the debounce window has passed since the pending change, a poll fires
/// exactly once and the scheduler is idle; after that, silence (polls at any
/// later time, deadlines passing) fires nothing and keeps it idle.
pub proof fn quiescence_fires_once(since: u64, now: u64, later: u64)
    requires
        now >= since,
        now - since >= DEBOUNCE_WINDOW_MS,
    ensures
        poll_result(Some(since), now) == (None::<u64>, Poll::Fire),
        poll_result(None, later) == (None::<u64>, Poll::WaitForever),
        handle_result(None, Incoming::TimedOut, later) == (None::<u64>, Reaction::Ignored),
{
}

/// Items that are not relevant changes leave an idle scheduler idle and fire
/// nothing, whatever their number and times.
pub proof fn irrelevant_events_never_fire(events: Seq<(u64, Incoming)>)
    requires
        forall|i: int| 0 <= i < events.len() ==> !is_relevant_incoming(#[trigger] events[i].1),
    ensures
        run_events(None, events) == (None::<u64>, 0nat),
    decreases events.len(),
{
    if events.len() > 0 {
        assert(!is_relevant_incoming(events[0].1));
        let rest = events.drop_first();
        assert forall|i: int| 0 <= i < rest.len() implies !is_relevant_incoming(
            #[trigger] rest[i].1,
        ) by {
            assert(!is_relevant_incoming(events[i + 1].1));
        }
        irrelevant_events_never_fire(rest);
    }
}

} // verus!
