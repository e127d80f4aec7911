//! The game of doubles: two dice are thrown, the first is shown at once, the
//! second after a pause, and the player is told how it went. Only a round
//! without doubles needs the player's words turned into their negative,
//! which is asked for while the pause runs.

use crate::text::{format_i64, signed_decimal, trim, trimmed};
use crate::util::Platform;
use vstd::prelude::*;
use vstd::string::*;

verus! {

/// Seconds for which the first die is shown alone.
pub const REVEAL_PAUSE_SECONDS: u64 = 2;

/// How far a round has got.
#[derive(Debug, Clone, Copy, PartialEq, Eq, Structural)]
pub enum RollStage {
    /// The dice are thrown and nothing is shown yet.
    Thrown,
    /// The first die is shown; the pause before the second runs.
    FirstShown,
    /// Both dice are shown; the rewording is still awaited.
    BothShown,
    /// The player has been told how the round went.
    Finished,
}

/// What is known of the rewording of the player's words.
#[derive(Debug, Clone, Copy, PartialEq, Eq, Structural)]
pub enum Wording {
    /// It was not asked for.
    NotAsked,
    /// It was asked for and has not come back.
    Awaited,
    /// It has come back, with a text or without.
    Arrived { usable: bool },
}

/// How a round went.
#[derive(Debug, Clone, Copy, PartialEq, Eq, Structural)]
pub enum Verdict {
    /// Both dice show the same.
    Doubles,
    /// They differ, and the reworded text is at hand.
    NoDoubles,
    /// They differ, and the rewording failed.
    WordingFailed,
}

/// What the caller reports.
#[derive(Debug, Clone, Copy, PartialEq, Eq, Structural)]
pub enum RollEvent {
    /// The round begins.
    Started,
    /// The pause before the second die is over.
    PauseOver,
    /// The rewording has come back, with a text or without. A rewording
    /// task that broke down counts as one that came back without.
    Reworded { usable: bool },
}

/// What a round waits for.
#[derive(Debug, Clone, Copy, PartialEq, Eq, Structural)]
pub enum Pending {
    /// The start of the round.
    Start,
    /// The end of the pause before the second die.
    Pause,
    /// The rewording.
    Rewording,
    /// Nothing: the round is finished.
    Nothing,
}

/// What the caller is to do, in the order of the fields.
#[derive(Debug, Clone, Copy, PartialEq, Eq, Structural)]
pub struct RollAction {
    /// Show the first die, and start the pause.
    pub show_first: bool,
    /// Ask for the rewording, without waiting for it.
    pub ask_wording: bool,
    /// Show both dice.
    pub show_both: bool,
    /// Tell the player how the round went.
    pub verdict: Option<Verdict>,
}

/// A round of the game.
#[derive(Debug, Clone, Copy, PartialEq, Eq, Structural)]
pub struct Roll {
    pub first: i8,
    pub second: i8,
    pub stage: RollStage,
    pub wording: Wording,
}

impl RollAction {
    /// Nothing to do.
    pub open spec fn idle() -> RollAction {
        RollAction { show_first: false, ask_wording: false, show_both: false, verdict: None }
    }
}

impl Roll {
    /// Whether both dice show the same.
    pub open spec fn is_double(self) -> bool {
        self.first == self.second
    }

    /// How the round went, once both dice are shown and, without doubles,
    /// the rewording has come back.
    pub open spec fn outcome(self, usable: bool) -> Verdict {
        if self.is_double() {
            Verdict::Doubles
        } else if usable {
            Verdict::NoDoubles
        } else {
            Verdict::WordingFailed
        }
    }

    /// The round after `event`, and what the caller is to do.
    ///
    /// * At the start the first die is shown, and the rewording is asked
    ///   for unless the dice are doubles.
    /// * When the pause is over both dice are shown. The verdict follows at
    ///   once on doubles or if the rewording is back, else the round waits.
    /// * When the rewording comes back the verdict follows if both dice are
    ///   shown.
    /// * An event that does not fit the stage is passed over.
    pub open spec fn next(self, event: RollEvent) -> (Roll, RollAction) {
        match (self.stage, event) {
            (RollStage::Thrown, RollEvent::Started) => (
                Roll {
                    stage: RollStage::FirstShown,
                    wording: if self.is_double() {
                        Wording::NotAsked
                    } else {
                        Wording::Awaited
                    },
                    ..self
                },
                RollAction { show_first: true, ask_wording: !self.is_double(), ..RollAction::idle() },
            ),
            (RollStage::FirstShown, RollEvent::PauseOver) => match self.wording {
                Wording::Awaited => (
                    Roll { stage: RollStage::BothShown, ..self },
                    RollAction { show_both: true, ..RollAction::idle() },
                ),
                Wording::NotAsked => (
                    Roll { stage: RollStage::Finished, ..self },
                    RollAction {
                        show_both: true,
                        verdict: Some(self.outcome(false)),
                        ..RollAction::idle()
                    },
                ),
                Wording::Arrived { usable } => (
                    Roll { stage: RollStage::Finished, ..self },
                    RollAction {
                        show_both: true,
                        verdict: Some(self.outcome(usable)),
                        ..RollAction::idle()
                    },
                ),
            },
            (RollStage::FirstShown, RollEvent::Reworded { usable }) => if self.wording
                == Wording::Awaited {
                (Roll { wording: Wording::Arrived { usable }, ..self }, RollAction::idle())
            } else {
                (self, RollAction::idle())
            },
            (RollStage::BothShown, RollEvent::Reworded { usable }) => if self.wording
                == Wording::Awaited {
                (
                    Roll {
                        stage: RollStage::Finished,
                        wording: Wording::Arrived { usable },
                        ..self
                    },
                    RollAction { verdict: Some(self.outcome(usable)), ..RollAction::idle() },
                )
            } else {
                (self, RollAction::idle())
            },
            _ => (self, RollAction::idle()),
        }
    }

    /// The round after each of `events` in turn.
    pub open spec fn after(self, events: Seq<RollEvent>) -> Roll
        decreases events.len(),
    {
        if events.len() == 0 {
            self
        } else {
            self.after(events.drop_last()).next(events.last()).0
        }
    }

    /// How many verdicts the player is given while `events` come in.
    pub open spec fn verdicts(self, events: Seq<RollEvent>) -> nat
        decreases events.len(),
    {
        if events.len() == 0 {
            0
        } else {
            let before = self.verdicts(events.drop_last());
            if self.after(events.drop_last()).next(events.last()).1.verdict is Some {
                before + 1
            } else {
                before
            }
        }
    }

    /// How often the rewording is asked for while `events` come in.
    pub open spec fn requests(self, events: Seq<RollEvent>) -> nat
        decreases events.len(),
    {
        if events.len() == 0 {
            0
        } else {
            let before = self.requests(events.drop_last());
            if self.after(events.drop_last()).next(events.last()).1.ask_wording {
                before + 1
            } else {
                before
            }
        }
    }

    /// Whether the round is in a state that a run from `Roll::new` can
    /// reach: the rewording is awaited or back only without doubles and
    /// after the start, and a finished round without doubles has it back.
    pub open spec fn wf(self) -> bool {
        &&& self.stage == RollStage::Thrown ==> self.wording == Wording::NotAsked
        &&& self.is_double() ==> self.wording == Wording::NotAsked
        &&& !self.is_double() && self.stage != RollStage::Thrown ==> self.wording
            != Wording::NotAsked
        &&& self.stage == RollStage::BothShown ==> self.wording == Wording::Awaited
        &&& self.stage == RollStage::Finished && !self.is_double() ==> self.wording is Arrived
    }

    /// A round of which the dice are thrown and nothing is shown.
    pub fn new(first: i8, second: i8) -> (r: Roll)
        ensures
            r == (Roll { first, second, stage: RollStage::Thrown, wording: Wording::NotAsked }),
            r.wf(),
    {
        Roll { first, second, stage: RollStage::Thrown, wording: Wording::NotAsked }
    }

    /// What the round waits for. The rewording, where it was asked for, is
    /// under way all the while, and is only waited for once both dice are
    /// shown.
    pub fn pending(&self) -> (r: Pending)
        ensures
            r == match self.stage {
                RollStage::Thrown => Pending::Start,
                RollStage::FirstShown => Pending::Pause,
                RollStage::BothShown => Pending::Rewording,
                RollStage::Finished => Pending::Nothing,
            },
    {
        match self.stage {
            RollStage::Thrown => Pending::Start,
            RollStage::FirstShown => Pending::Pause,
            RollStage::BothShown => Pending::Rewording,
            RollStage::Finished => Pending::Nothing,
        }
    }

    /// Takes in `event` and says what to do.
    pub fn step(&mut self, event: RollEvent) -> (action: RollAction)
        ensures
            (*final(self), action) == old(self).next(event),
    {
        let idle = RollAction {
            show_first: false,
            ask_wording: false,
            show_both: false,
            verdict: None,
        };
        let double = self.first == self.second;
        match (self.stage, event) {
            (RollStage::Thrown, RollEvent::Started) => {
                self.stage = RollStage::FirstShown;
                self.wording = if double {
                    Wording::NotAsked
                } else {
                    Wording::Awaited
                };
                RollAction { show_first: true, ask_wording: !double, ..idle }
            },
            (RollStage::FirstShown, RollEvent::PauseOver) => match self.wording {
                Wording::Awaited => {
                    self.stage = RollStage::BothShown;
                    RollAction { show_both: true, ..idle }
                },
                Wording::NotAsked => {
                    self.stage = RollStage::Finished;
                    RollAction { show_both: true, verdict: Some(verdict_of(double, false)), ..idle }
                },
                Wording::Arrived { usable } => {
                    self.stage = RollStage::Finished;
                    RollAction {
                        show_both: true,
                        verdict: Some(verdict_of(double, usable)),
                        ..idle
                    }
                },
            },
            (RollStage::FirstShown, RollEvent::Reworded { usable }) => {
                if self.wording == Wording::Awaited {
                    self.wording = Wording::Arrived { usable };
                }
                idle
            },
            (RollStage::BothShown, RollEvent::Reworded { usable }) => {
                if self.wording == Wording::Awaited {
                    self.stage = RollStage::Finished;
                    self.wording = Wording::Arrived { usable };
                    RollAction { verdict: Some(verdict_of(double, usable)), ..idle }
                } else {
                    idle
                }
            },
            _ => idle,
        }
    }
}

/// How a round went: doubles, or none with or without a reworded text.
pub fn verdict_of(double: bool, usable: bool) -> (r: Verdict)
    ensures
        r == if double {
            Verdict::Doubles
        } else if usable {
            Verdict::NoDoubles
        } else {
            Verdict::WordingFailed
        },
{
    if double {
        Verdict::Doubles
    } else if usable {
        Verdict::NoDoubles
    } else {
        Verdict::WordingFailed
    }
}

/// The line that shows the first die.
pub open spec fn first_line(first: i8) -> Seq<char> {
    "Noppa 1: "@ + signed_decimal(first as int)
}

/// The two lines that show both dice.
pub open spec fn both_lines(first: i8, second: i8) -> Seq<char> {
    first_line(first) + "\nNoppa 2: "@ + signed_decimal(second as int)
}

/// The line that tells the player how the round went. On doubles it takes
/// up the player's own words, trimmed; without doubles their rewording, or
/// a regret where that could not be had. Each platform has its own
/// punctuation and faces.
pub open spec fn closing_line(
    platform: Platform,
    verdict: Verdict,
    act: Seq<char>,
    reworded: Seq<char>,
) -> Seq<char> {
    match (platform, verdict) {
        (Platform::Telegram, Verdict::Doubles) => "Tuplat tuli, "@ + trimmed(act) + " 😎"@,
        (Platform::Telegram, Verdict::NoDoubles) => "Ei tuplia, "@ + reworded + " 😢"@,
        (Platform::Telegram, Verdict::WordingFailed) => "Ei tuplia, mutta sanat loppuivat kesken 😢"@,
        (Platform::Discord, Verdict::Doubles) => "Tuplat tuli, "@ + trimmed(act) + ". 😎"@,
        (Platform::Discord, Verdict::NoDoubles) => "Ei tuplia, "@ + reworded + ". 😿"@,
        (Platform::Discord, Verdict::WordingFailed) => "Ei tuplia, mutta sanat loppuivat kesken. 😿"@,
    }
}

/// The message that ends a round. Where the round is shown in one message
/// that grows, as on Discord, it repeats the dice above the closing line;
/// where each stage has a message of its own, as on Telegram, it is the
/// closing line alone.
pub open spec fn closing_message(
    platform: Platform,
    first: i8,
    second: i8,
    verdict: Verdict,
    act: Seq<char>,
    reworded: Seq<char>,
) -> Seq<char> {
    match platform {
        Platform::Telegram => closing_line(platform, verdict, act, reworded),
        Platform::Discord => both_lines(first, second) + "\n"@ + closing_line(
            platform,
            verdict,
            act,
            reworded,
        ),
    }
}

/// The line that shows the first die.
pub fn first_report(first: i8) -> (r: String)
    ensures
        r@ == first_line(first),
{
    let mut r = "Noppa 1: ".to_owned();
    r.append(format_i64(first as i64).as_str());
    r
}

/// The two lines that show both dice.
pub fn full_report(first: i8, second: i8) -> (r: String)
    ensures
        r@ == both_lines(first, second),
{
    let mut r = first_report(first);
    r.append("\nNoppa 2: ");
    r.append(format_i64(second as i64).as_str());
    r
}

/// The line that tells the player how the round went. `act` is what the
/// player wrote, `reworded` its rewording, which is only read on a verdict
/// of no doubles.
pub fn verdict_text(platform: Platform, verdict: Verdict, act: &str, reworded: &str) -> (r: String)
    ensures
        r@ == closing_line(platform, verdict, act@, reworded@),
{
    match (platform, verdict) {
        (Platform::Telegram, Verdict::Doubles) => {
            let mut r = "Tuplat tuli, ".to_owned();
            r.append(trim(act));
            r.append(" 😎");
            r
        },
        (Platform::Telegram, Verdict::NoDoubles) => {
            let mut r = "Ei tuplia, ".to_owned();
            r.append(reworded);
            r.append(" 😢");
            r
        },
        (Platform::Telegram, Verdict::WordingFailed) => {
            "Ei tuplia, mutta sanat loppuivat kesken 😢".to_owned()
        },
        (Platform::Discord, Verdict::Doubles) => {
            let mut r = "Tuplat tuli, ".to_owned();
            r.append(trim(act));
            r.append(". 😎");
            r
        },
        (Platform::Discord, Verdict::NoDoubles) => {
            let mut r = "Ei tuplia, ".to_owned();
            r.append(reworded);
            r.append(". 😿");
            r
        },
        (Platform::Discord, Verdict::WordingFailed) => {
            "Ei tuplia, mutta sanat loppuivat kesken. 😿".to_owned()
        },
    }
}

/// The message that ends a round.
pub fn final_report(
    platform: Platform,
    first: i8,
    second: i8,
    verdict: Verdict,
    act: &str,
    reworded: &str,
) -> (r: String)
    ensures
        r@ == closing_message(platform, first, second, verdict, act@, reworded@),
{
    let line = verdict_text(platform, verdict, act, reworded);
    match platform {
        Platform::Telegram => line,
        Platform::Discord => {
            let mut r = full_report(first, second);
            r.append("\n");
            r.append(line.as_str());
            r
        },
    }
}

/// The rewording is never asked for on doubles, in whatever state the round
/// is and whatever is reported; and it is asked for at the start only.
pub proof fn lemma_doubles_need_no_wording(round: Roll, event: RollEvent)
    ensures
        round.next(event).1.ask_wording ==> !round.is_double(),
        round.next(event).1.ask_wording ==> round.stage == RollStage::Thrown && event
            == RollEvent::Started,
        round.is_double() ==> !round.next(event).1.ask_wording,
{
}

/// A step leaves the dice as they were and a reachable round reachable.
pub proof fn lemma_step_keeps_round(round: Roll, event: RollEvent)
    requires
        round.wf(),
    ensures
        round.next(event).0.wf(),
        round.next(event).0.first == round.first,
        round.next(event).0.second == round.second,
{
}

/// Over a whole round on doubles the rewording is not asked for once,
/// whatever events come in and in whatever order.
pub proof fn lemma_no_request_on_doubles(first: i8, second: i8, events: Seq<RollEvent>)
    requires
        first == second,
    ensures
        (Roll { first, second, stage: RollStage::Thrown, wording: Wording::NotAsked }).requests(
            events,
        ) == 0,
    decreases events.len(),
{
    let start = Roll { first, second, stage: RollStage::Thrown, wording: Wording::NotAsked };
    if events.len() > 0 {
        lemma_no_request_on_doubles(first, second, events.drop_last());
        lemma_run_keeps_round(start, events.drop_last());
    }
}

/// A run leaves the dice as they were and a reachable round reachable.
pub proof fn lemma_run_keeps_round(start: Roll, events: Seq<RollEvent>)
    requires
        start.wf(),
    ensures
        start.after(events).wf(),
        start.after(events).first == start.first,
        start.after(events).second == start.second,
    decreases events.len(),
{
    if events.len() > 0 {
        lemma_run_keeps_round(start, events.drop_last());
        lemma_step_keeps_round(start.after(events.drop_last()), events.last());
    }
}

/// The player is told how the round went at most once, and exactly once if
/// the round gets finished: a verdict is what finishes it.
pub proof fn lemma_one_verdict(start: Roll, events: Seq<RollEvent>)
    requires
        start.stage != RollStage::Finished,
    ensures
        start.verdicts(events) <= 1,
        start.verdicts(events) == 1 <==> start.after(events).stage == RollStage::Finished,
    decreases events.len(),
{
    if events.len() > 0 {
        lemma_one_verdict(start, events.drop_last());
    }
}

/// The verdict never comes before both dice are shown: it comes with the
/// second die or after it.
pub proof fn lemma_verdict_follows_dice(round: Roll, event: RollEvent)
    ensures
        round.next(event).1.verdict is Some ==> round.next(event).1.show_both || round.stage
            == RollStage::BothShown,
        round.next(event).1.show_both ==> round.stage == RollStage::FirstShown,
        round.next(event).1.verdict matches Some(v) ==> v == round.outcome(
            round.next(event).0.wording == Wording::Arrived { usable: true },
        ),
{
}

/// A round runs to its end whichever of the pause and the rewording is over
/// first, and the verdict is the same either way.
pub proof fn lemma_round_completes(first: i8, second: i8, usable: bool)
    ensures
        ({
            let start = Roll { first, second, stage: RollStage::Thrown, wording: Wording::NotAsked };
            let pause_first = seq![
                RollEvent::Started,
                RollEvent::PauseOver,
                RollEvent::Reworded { usable },
            ];
            let wording_first = seq![
                RollEvent::Started,
                RollEvent::Reworded { usable },
                RollEvent::PauseOver,
            ];
            &&& start.after(pause_first).stage == RollStage::Finished
            &&& start.after(wording_first).stage == RollStage::Finished
            &&& first == second ==> start.after(seq![RollEvent::Started, RollEvent::PauseOver]).stage
                == RollStage::Finished
        }),
{
    let start = Roll { first, second, stage: RollStage::Thrown, wording: Wording::NotAsked };
    let none = Seq::<RollEvent>::empty();
    let one = seq![RollEvent::Started];
    let pause = seq![RollEvent::Started, RollEvent::PauseOver];
    let word = seq![RollEvent::Started, RollEvent::Reworded { usable }];
    let pause_first = seq![RollEvent::Started, RollEvent::PauseOver, RollEvent::Reworded { usable }];
    let wording_first = seq![
        RollEvent::Started,
        RollEvent::Reworded { usable },
        RollEvent::PauseOver,
    ];
    assert(start.after(none) == start);
    assert(one.drop_last() =~= none);
    assert(pause.drop_last() =~= one);
    assert(word.drop_last() =~= one);
    assert(start.after(word) == start.after(one).next(RollEvent::Reworded { usable }).0);
    assert(pause_first.drop_last() =~= pause);
    assert(wording_first.drop_last() =~= word);
}

} // verus!
