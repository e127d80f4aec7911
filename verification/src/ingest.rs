//! The bookkeeping of the loop that polls for updates: where to poll from,
//! what to make of an answer, and how many updates may be worked on at once.

use vstd::prelude::*;

verus! {

/// How many updates are worked on at once unless configured otherwise.
pub const DEFAULT_CAPACITY: usize = 2;

/// Seconds that a poll may wait for updates.
pub const POLL_TIMEOUT_SECONDS: i64 = 60;

/// Milliseconds to wait after a poll that the platform refused.
pub const GRACE_PERIOD_MILLISECONDS: u64 = 2000;

/// The cursor of the polling loop and its pool of permits. An update is only
/// worked on while it holds a permit.
#[derive(Debug, Clone, Copy, PartialEq, Eq, Structural)]
pub struct Ingestion {
    /// The highest identifier among the updates taken on so far.
    pub last_update_id: i64,
    /// The number of permits.
    pub capacity: usize,
    /// The number of permits that are held.
    pub in_flight: usize,
}

/// What the loop learns.
#[derive(Debug, Clone, Copy, PartialEq, Eq, Structural)]
pub enum IngestionEvent {
    /// A poll has ended. `ok` is the flag of that name in the answer, if
    /// there is an answer and it has one; `listed` says whether the answer
    /// holds a list of updates.
    Polled { ok: Option<bool>, listed: bool },
    /// The next update of an answer is up, with its identifier if it has one.
    Offered { update_id: Option<i64> },
    /// A workflow has ended, well or badly.
    Finished,
}

/// What the loop is to do.
#[derive(Debug, Clone, Copy, PartialEq, Eq, Structural)]
pub enum IngestionAction {
    /// Go through the updates of the answer, in their order.
    Process,
    /// Wait for this many milliseconds, then poll again.
    BackOff(u64),
    /// Start a workflow for the update. It holds a permit from now on.
    Dispatch,
    /// Wait until a workflow has ended, then offer the update again.
    Wait,
    /// Pass over the update.
    Skip,
    /// Nothing.
    Carry,
}

impl Ingestion {
    /// Whether no more permits are held than there are.
    pub open spec fn wf(self) -> bool {
        self.in_flight <= self.capacity
    }

    /// The state after `event`, and what the loop is to do.
    ///
    /// * A poll that brought no answer, or an answer that is not `ok` or
    ///   lists no updates, is backed off from; the cursor stays.
    /// * An update without identifier is passed over.
    /// * An update is dispatched if a permit is free, and the cursor moves
    ///   up to its identifier; else it waits, and nothing changes.
    /// * A workflow that ends gives its permit back.
    pub open spec fn next(self, event: IngestionEvent) -> (Ingestion, IngestionAction) {
        match event {
            IngestionEvent::Polled { ok, listed } => if ok == Some(true) && listed {
                (self, IngestionAction::Process)
            } else {
                (self, IngestionAction::BackOff(GRACE_PERIOD_MILLISECONDS))
            },
            IngestionEvent::Offered { update_id: None } => (self, IngestionAction::Skip),
            IngestionEvent::Offered { update_id: Some(id) } => if self.in_flight < self.capacity {
                (
                    Ingestion {
                        last_update_id: if id > self.last_update_id {
                            id
                        } else {
                            self.last_update_id
                        },
                        capacity: self.capacity,
                        in_flight: (self.in_flight + 1) as usize,
                    },
                    IngestionAction::Dispatch,
                )
            } else {
                (self, IngestionAction::Wait)
            },
            IngestionEvent::Finished => if self.in_flight > 0 {
                (
                    Ingestion {
                        last_update_id: self.last_update_id,
                        capacity: self.capacity,
                        in_flight: (self.in_flight - 1) as usize,
                    },
                    IngestionAction::Carry,
                )
            } else {
                (self, IngestionAction::Carry)
            },
        }
    }

    /// The state after each of `events` in turn.
    pub open spec fn after(self, events: Seq<IngestionEvent>) -> Ingestion
        decreases events.len(),
    {
        if events.len() == 0 {
            self
        } else {
            self.after(events.drop_last()).next(events.last()).0
        }
    }

    /// How many of `events` start a workflow when they arrive in this order.
    pub open spec fn dispatched(self, events: Seq<IngestionEvent>) -> nat
        decreases events.len(),
    {
        if events.len() == 0 {
            0
        } else {
            let before = self.dispatched(events.drop_last());
            if self.after(events.drop_last()).next(events.last()).1 == IngestionAction::Dispatch {
                before + 1
            } else {
                before
            }
        }
    }

    /// How many of `events` end a workflow that held a permit.
    pub open spec fn released(self, events: Seq<IngestionEvent>) -> nat
        decreases events.len(),
    {
        if events.len() == 0 {
            0
        } else {
            let before = self.released(events.drop_last());
            if events.last() == IngestionEvent::Finished && self.after(
                events.drop_last(),
            ).in_flight > 0 {
                before + 1
            } else {
                before
            }
        }
    }

    /// A loop that has seen no update yet, with `capacity` permits, all of
    /// them free.
    pub fn new(capacity: usize) -> (r: Ingestion)
        ensures
            r == (Ingestion { last_update_id: 0, capacity, in_flight: 0 }),
            r.wf(),
    {
        Ingestion { last_update_id: 0, capacity, in_flight: 0 }
    }

    /// The offset to poll from: one past the highest identifier taken on.
    pub fn next_offset(&self) -> (r: i64)
        requires
            self.last_update_id < i64::MAX,
        ensures
            r == self.last_update_id + 1,
    {
        self.last_update_id + 1
    }

    /// Takes in `event` and says what to do.
    pub fn step(&mut self, event: IngestionEvent) -> (action: IngestionAction)
        ensures
            (*final(self), action) == old(self).next(event),
            old(self).wf() ==> final(self).wf(),
    {
        match event {
            IngestionEvent::Polled { ok, listed } => match ok {
                Some(true) if listed => IngestionAction::Process,
                _ => IngestionAction::BackOff(GRACE_PERIOD_MILLISECONDS),
            },
            IngestionEvent::Offered { update_id: None } => IngestionAction::Skip,
            IngestionEvent::Offered { update_id: Some(id) } => if self.in_flight < self.capacity {
                if id > self.last_update_id {
                    self.last_update_id = id;
                }
                self.in_flight = self.in_flight + 1;
                IngestionAction::Dispatch
            } else {
                IngestionAction::Wait
            },
            IngestionEvent::Finished => {
                if self.in_flight > 0 {
                    self.in_flight = self.in_flight - 1;
                }
                IngestionAction::Carry
            },
        }
    }
}

/// However the events fall, never more workflows hold a permit than there
/// are permits, and the number of permits never changes.
pub proof fn lemma_permits_are_bounded(start: Ingestion, events: Seq<IngestionEvent>)
    requires
        start.wf(),
    ensures
        start.after(events).wf(),
        start.after(events).capacity == start.capacity,
        start.after(events).in_flight <= start.capacity,
    decreases events.len(),
{
    if events.len() > 0 {
        lemma_permits_are_bounded(start, events.drop_last());
    }
}

/// The permits that are held are those of the workflows that were started
/// and have not ended.
pub proof fn lemma_permits_are_accounted_for(start: Ingestion, events: Seq<IngestionEvent>)
    requires
        start.wf(),
    ensures
        start.after(events).in_flight + start.released(events) == start.in_flight
            + start.dispatched(events),
    decreases events.len(),
{
    if events.len() > 0 {
        lemma_permits_are_bounded(start, events.drop_last());
        lemma_permits_are_accounted_for(start, events.drop_last());
    }
}

/// The cursor never moves back, and an update that is dispatched leaves it
/// at or above its identifier.
pub proof fn lemma_cursor_only_advances(state: Ingestion, event: IngestionEvent)
    ensures
        state.next(event).0.last_update_id >= state.last_update_id,
        state.next(event).1 == IngestionAction::Dispatch ==> (event matches IngestionEvent::Offered {
            update_id: Some(id),
        } && state.next(event).0.last_update_id >= id),
        state.next(event).1 != IngestionAction::Dispatch ==> state.next(event).0.last_update_id
            == state.last_update_id,
{
}

} // verus!
