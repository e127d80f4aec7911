//! The heartbeat that tells a chat that the bot is still at work.
//!
//! The caller owns the timer and the connection. Whenever it wakes, and
//! whenever a signal has gone out, it reports here and does what it is told.

use vstd::prelude::*;

verus! {

/// Seconds between two signals.
pub const HEARTBEAT_INTERVAL_SECONDS: u64 = 4;

/// The presence indicator that a signal shows in the chat.
pub const HEARTBEAT_INDICATOR: &'static str = "upload_video";

/// Whether the heartbeat is still going.
#[derive(Debug, Clone, Copy, PartialEq, Eq, Structural)]
pub enum Heartbeat {
    Beating,
    Stopped,
}

/// What the caller reports.
#[derive(Debug, Clone, Copy, PartialEq, Eq, Structural)]
pub enum HeartbeatEvent {
    /// The task woke up, at its start or after a sleep, and looked whether
    /// it was told to stop.
    Woke { stop_requested: bool },
    /// A signal was handed to the platform, which took it or did not.
    Signalled { delivered: bool },
}

/// What the caller is to do next.
#[derive(Debug, Clone, Copy, PartialEq, Eq, Structural)]
pub enum HeartbeatAction {
    /// Send the presence indicator to the chat.
    Signal,
    /// Sleep for this many seconds, then wake.
    Sleep(u64),
    /// End the task.
    Exit,
}

impl Heartbeat {
    /// The heartbeat after `event`, and what the caller is to do. A stop is
    /// seen on waking and ends the task for good; a signal that the
    /// platform did not take changes nothing.
    pub open spec fn next(self, event: HeartbeatEvent) -> (Heartbeat, HeartbeatAction) {
        match (self, event) {
            (Heartbeat::Stopped, _) => (Heartbeat::Stopped, HeartbeatAction::Exit),
            (Heartbeat::Beating, HeartbeatEvent::Woke { stop_requested }) => if stop_requested {
                (Heartbeat::Stopped, HeartbeatAction::Exit)
            } else {
                (Heartbeat::Beating, HeartbeatAction::Signal)
            },
            (Heartbeat::Beating, HeartbeatEvent::Signalled { .. }) => (
                Heartbeat::Beating,
                HeartbeatAction::Sleep(HEARTBEAT_INTERVAL_SECONDS),
            ),
        }
    }

    /// The heartbeat after each of `events` in turn.
    pub open spec fn after(self, events: Seq<HeartbeatEvent>) -> Heartbeat
        decreases events.len(),
    {
        if events.len() == 0 {
            self
        } else {
            self.after(events.drop_last()).next(events.last()).0
        }
    }

    /// What the caller is told on the last of `events`.
    pub open spec fn answer(self, events: Seq<HeartbeatEvent>) -> HeartbeatAction
        recommends
            events.len() > 0,
    {
        self.after(events.drop_last()).next(events.last()).1
    }

    /// A heartbeat that has just been started.
    pub fn start() -> (r: Heartbeat)
        ensures
            r == Heartbeat::Beating,
    {
        Heartbeat::Beating
    }

    /// Takes in `event` and says what to do next.
    pub fn step(&mut self, event: HeartbeatEvent) -> (action: HeartbeatAction)
        ensures
            (*final(self), action) == old(self).next(event),
    {
        match (*self, event) {
            (Heartbeat::Stopped, _) => HeartbeatAction::Exit,
            (Heartbeat::Beating, HeartbeatEvent::Woke { stop_requested }) => if stop_requested {
                *self = Heartbeat::Stopped;
                HeartbeatAction::Exit
            } else {
                HeartbeatAction::Signal
            },
            (Heartbeat::Beating, HeartbeatEvent::Signalled { .. }) => HeartbeatAction::Sleep(
                HEARTBEAT_INTERVAL_SECONDS,
            ),
        }
    }
}

/// A stopped heartbeat stays stopped, whatever is reported to it.
pub proof fn lemma_stopped_stays_stopped(events: Seq<HeartbeatEvent>)
    ensures
        Heartbeat::Stopped.after(events) == Heartbeat::Stopped,
    decreases events.len(),
{
    if events.len() > 0 {
        lemma_stopped_stays_stopped(events.drop_last());
    }
}

/// Once the task has ended, no signal goes out any more: whatever has
/// happened up to the exit and whatever is reported after it, the answer is
/// to exit.
pub proof fn lemma_no_signal_after_exit(
    start: Heartbeat,
    before: Seq<HeartbeatEvent>,
    later: Seq<HeartbeatEvent>,
)
    requires
        before.len() > 0,
        start.answer(before) == HeartbeatAction::Exit,
        later.len() > 0,
    ensures
        start.answer(before + later) == HeartbeatAction::Exit,
        start.after(before + later) == Heartbeat::Stopped,
    decreases later.len(),
{
    let all = before + later;
    assert(all.drop_last() == before + later.drop_last());
    if later.len() == 1 {
    } else {
        lemma_no_signal_after_exit(start, before, later.drop_last());
    }
}

/// A stop request is obeyed on the next waking: from then on the answer is
/// to exit, so the request is followed by no further signal.
pub proof fn lemma_stop_is_obeyed(
    start: Heartbeat,
    before: Seq<HeartbeatEvent>,
    later: Seq<HeartbeatEvent>,
)
    ensures
        start.answer(before.push(HeartbeatEvent::Woke { stop_requested: true }))
            == HeartbeatAction::Exit,
        later.len() > 0 ==> start.answer(
            before.push(HeartbeatEvent::Woke { stop_requested: true }) + later,
        ) == HeartbeatAction::Exit,
{
    let stop = HeartbeatEvent::Woke { stop_requested: true };
    let upto = before.push(stop);
    if later.len() > 0 {
        lemma_no_signal_after_exit(start, upto, later);
    }
}

/// A signal that the platform did not take does not end the heartbeat: it
/// sleeps and goes on as after one that was taken.
pub proof fn lemma_failed_signal_is_tolerated(state: Heartbeat)
    ensures
        state.next(HeartbeatEvent::Signalled { delivered: false }) == state.next(
            HeartbeatEvent::Signalled { delivered: true },
        ),
        state == Heartbeat::Beating ==> state.next(HeartbeatEvent::Signalled { delivered: false })
            == (Heartbeat::Beating, HeartbeatAction::Sleep(HEARTBEAT_INTERVAL_SECONDS)),
{
}

} // verus!
