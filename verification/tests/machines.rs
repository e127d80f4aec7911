use tuplabot::heartbeat::{Heartbeat, HeartbeatAction, HeartbeatEvent, HEARTBEAT_INTERVAL_SECONDS};
use tuplabot::ingest::{
    Ingestion, IngestionAction, IngestionEvent, DEFAULT_CAPACITY, GRACE_PERIOD_MILLISECONDS,
};
use tuplabot::roll::{
    final_report, first_report, full_report, verdict_of, verdict_text, Pending, Roll, RollAction,
    RollEvent, RollStage, Verdict, Wording,
};
use tuplabot::util::Platform;

const IDLE: RollAction =
    RollAction { show_first: false, ask_wording: false, show_both: false, verdict: None };

#[test]
fn heartbeat_signals_sleeps_and_signals_again() {
    let mut beat = Heartbeat::start();
    assert_eq!(beat, Heartbeat::Beating);
    for _ in 0..3 {
        assert_eq!(beat.step(HeartbeatEvent::Woke { stop_requested: false }), HeartbeatAction::Signal);
        assert_eq!(
            beat.step(HeartbeatEvent::Signalled { delivered: true }),
            HeartbeatAction::Sleep(4)
        );
    }
    assert_eq!(HEARTBEAT_INTERVAL_SECONDS, 4);
    assert_eq!(beat, Heartbeat::Beating);
}

#[test]
fn heartbeat_survives_a_failed_signal() {
    let mut beat = Heartbeat::start();
    assert_eq!(beat.step(HeartbeatEvent::Woke { stop_requested: false }), HeartbeatAction::Signal);
    assert_eq!(beat.step(HeartbeatEvent::Signalled { delivered: false }), HeartbeatAction::Sleep(4));
    assert_eq!(beat, Heartbeat::Beating);
    assert_eq!(beat.step(HeartbeatEvent::Woke { stop_requested: false }), HeartbeatAction::Signal);
}

#[test]
fn heartbeat_is_silent_after_a_stop() {
    let mut beat = Heartbeat::start();
    assert_eq!(beat.step(HeartbeatEvent::Woke { stop_requested: false }), HeartbeatAction::Signal);
    assert_eq!(beat.step(HeartbeatEvent::Signalled { delivered: true }), HeartbeatAction::Sleep(4));
    assert_eq!(beat.step(HeartbeatEvent::Woke { stop_requested: true }), HeartbeatAction::Exit);
    assert_eq!(beat, Heartbeat::Stopped);
    let later = [
        HeartbeatEvent::Woke { stop_requested: false },
        HeartbeatEvent::Signalled { delivered: true },
        HeartbeatEvent::Woke { stop_requested: true },
        HeartbeatEvent::Signalled { delivered: false },
        HeartbeatEvent::Woke { stop_requested: false },
    ];
    for event in later {
        assert_eq!(beat.step(event), HeartbeatAction::Exit);
        assert_eq!(beat, Heartbeat::Stopped);
    }
}

#[test]
fn heartbeat_stopped_before_its_first_beat_never_signals() {
    let mut beat = Heartbeat::start();
    assert_eq!(beat.step(HeartbeatEvent::Woke { stop_requested: true }), HeartbeatAction::Exit);
    assert_eq!(beat.step(HeartbeatEvent::Woke { stop_requested: false }), HeartbeatAction::Exit);
}

#[test]
fn polling_starts_after_update_zero() {
    let loop_state = Ingestion::new(DEFAULT_CAPACITY);
    assert_eq!(loop_state, Ingestion { last_update_id: 0, capacity: 2, in_flight: 0 });
    assert_eq!(loop_state.next_offset(), 1);
}

#[test]
fn refused_poll_is_backed_off_from() {
    let mut state = Ingestion::new(2);
    for (ok, listed) in [(Some(false), true), (None, true), (Some(true), false), (None, false)] {
        assert_eq!(
            state.step(IngestionEvent::Polled { ok, listed }),
            IngestionAction::BackOff(2000)
        );
        assert_eq!(state, Ingestion::new(2));
    }
    assert_eq!(GRACE_PERIOD_MILLISECONDS, 2000);
    assert_eq!(
        state.step(IngestionEvent::Polled { ok: Some(true), listed: true }),
        IngestionAction::Process
    );
    assert_eq!(state, Ingestion::new(2));
}

#[test]
fn update_without_identifier_is_passed_over() {
    let mut state = Ingestion::new(2);
    assert_eq!(state.step(IngestionEvent::Offered { update_id: None }), IngestionAction::Skip);
    assert_eq!(state, Ingestion::new(2));
}

#[test]
fn no_more_workflows_than_permits() {
    let mut state = Ingestion::new(2);
    assert_eq!(state.step(IngestionEvent::Offered { update_id: Some(5) }), IngestionAction::Dispatch);
    assert_eq!(state.step(IngestionEvent::Offered { update_id: Some(6) }), IngestionAction::Dispatch);
    assert_eq!(state, Ingestion { last_update_id: 6, capacity: 2, in_flight: 2 });
    for _ in 0..5 {
        assert_eq!(state.step(IngestionEvent::Offered { update_id: Some(7) }), IngestionAction::Wait);
        assert_eq!(state, Ingestion { last_update_id: 6, capacity: 2, in_flight: 2 });
    }
    assert_eq!(state.step(IngestionEvent::Finished), IngestionAction::Carry);
    assert_eq!(state.in_flight, 1);
    assert_eq!(state.step(IngestionEvent::Offered { update_id: Some(7) }), IngestionAction::Dispatch);
    assert_eq!(state, Ingestion { last_update_id: 7, capacity: 2, in_flight: 2 });
    assert_eq!(state.next_offset(), 8);
}

#[test]
fn burst_of_updates_never_exceeds_the_bound() {
    for capacity in 0..4usize {
        let mut state = Ingestion::new(capacity);
        let mut id = 0i64;
        for round in 0..200u32 {
            id += 1;
            let event = if round % 7 == 3 || round % 11 == 5 {
                IngestionEvent::Finished
            } else {
                IngestionEvent::Offered { update_id: Some(id) }
            };
            state.step(event);
            assert!(state.in_flight <= capacity);
            assert_eq!(state.capacity, capacity);
        }
    }
}

#[test]
fn cursor_follows_the_highest_identifier() {
    let mut state = Ingestion::new(8);
    for id in [3i64, 9, 4, 9, 1] {
        assert_eq!(state.step(IngestionEvent::Offered { update_id: Some(id) }), IngestionAction::Dispatch);
    }
    assert_eq!(state.last_update_id, 9);
    assert_eq!(state.next_offset(), 10);
}

#[test]
fn finished_workflow_without_permit_changes_nothing() {
    let mut state = Ingestion::new(2);
    assert_eq!(state.step(IngestionEvent::Finished), IngestionAction::Carry);
    assert_eq!(state, Ingestion::new(2));
}

#[test]
fn doubles_are_celebrated_without_a_rewording() {
    for face in 1..=6i8 {
        let mut round = Roll::new(face, face);
        let start = round.step(RollEvent::Started);
        assert_eq!(start, RollAction { show_first: true, ..IDLE });
        assert!(!start.ask_wording);
        assert_eq!(round.wording, Wording::NotAsked);
        let reveal = round.step(RollEvent::PauseOver);
        assert_eq!(reveal, RollAction { show_both: true, verdict: Some(Verdict::Doubles), ..IDLE });
        assert_eq!(round.stage, RollStage::Finished);
        assert_eq!(round.step(RollEvent::Reworded { usable: true }), IDLE);
        assert_eq!(round.step(RollEvent::PauseOver), IDLE);
        assert_eq!(round.step(RollEvent::Started), IDLE);
    }
}

#[test]
fn no_event_makes_doubles_ask_for_a_rewording() {
    let events = [
        RollEvent::Started,
        RollEvent::PauseOver,
        RollEvent::Reworded { usable: true },
        RollEvent::Reworded { usable: false },
    ];
    for a in events {
        for b in events {
            for c in events {
                let mut round = Roll::new(4, 4);
                for event in [a, b, c] {
                    assert!(!round.step(event).ask_wording);
                }
            }
        }
    }
}

#[test]
fn rewording_is_asked_for_when_the_dice_differ() {
    let mut round = Roll::new(2, 5);
    assert_eq!(round.step(RollEvent::Started), RollAction { show_first: true, ask_wording: true, ..IDLE });
    assert_eq!(round.step(RollEvent::PauseOver), RollAction { show_both: true, ..IDLE });
    assert_eq!(round.stage, RollStage::BothShown);
    assert_eq!(
        round.step(RollEvent::Reworded { usable: true }),
        RollAction { verdict: Some(Verdict::NoDoubles), ..IDLE }
    );
    assert_eq!(round.stage, RollStage::Finished);
    assert_eq!(round.step(RollEvent::Reworded { usable: true }), IDLE);
}

#[test]
fn rewording_may_come_back_before_the_pause_is_over() {
    let mut round = Roll::new(2, 5);
    round.step(RollEvent::Started);
    assert_eq!(round.step(RollEvent::Reworded { usable: true }), IDLE);
    assert_eq!(round.stage, RollStage::FirstShown);
    assert_eq!(
        round.step(RollEvent::PauseOver),
        RollAction { show_both: true, verdict: Some(Verdict::NoDoubles), ..IDLE }
    );
    assert_eq!(round.stage, RollStage::Finished);
}

#[test]
fn failed_rewording_is_reported() {
    let mut round = Roll::new(6, 1);
    round.step(RollEvent::Started);
    round.step(RollEvent::PauseOver);
    assert_eq!(
        round.step(RollEvent::Reworded { usable: false }),
        RollAction { verdict: Some(Verdict::WordingFailed), ..IDLE }
    );
}

#[test]
fn events_out_of_place_are_passed_over() {
    let mut round = Roll::new(1, 2);
    assert_eq!(round.step(RollEvent::PauseOver), IDLE);
    assert_eq!(round.step(RollEvent::Reworded { usable: true }), IDLE);
    assert_eq!(round, Roll::new(1, 2));
}

#[test]
fn exactly_one_verdict_per_round() {
    let events = [
        RollEvent::Started,
        RollEvent::PauseOver,
        RollEvent::Reworded { usable: true },
        RollEvent::PauseOver,
        RollEvent::Reworded { usable: false },
        RollEvent::Started,
    ];
    for (first, second) in [(1i8, 1i8), (1, 2)] {
        let mut round = Roll::new(first, second);
        let mut verdicts = 0;
        for event in events {
            if round.step(event).verdict.is_some() {
                verdicts += 1;
            }
        }
        assert_eq!(verdicts, 1);
        assert_eq!(round.stage, RollStage::Finished);
    }
}

#[test]
fn verdicts_follow_dice_and_rewording() {
    assert_eq!(verdict_of(true, true), Verdict::Doubles);
    assert_eq!(verdict_of(true, false), Verdict::Doubles);
    assert_eq!(verdict_of(false, true), Verdict::NoDoubles);
    assert_eq!(verdict_of(false, false), Verdict::WordingFailed);
}

#[test]
fn dice_are_reported_line_by_line() {
    assert_eq!(first_report(3), "Noppa 1: 3");
    assert_eq!(full_report(3, 5), "Noppa 1: 3\nNoppa 2: 5");
    assert_eq!(full_report(6, 6), format!("Noppa 1: {}\nNoppa 2: {}", 6, 6));
}

#[test]
fn telegram_verdicts() {
    assert_eq!(
        verdict_text(Platform::Telegram, Verdict::Doubles, "  mennään uimaan ", "ei mennä uimaan"),
        "Tuplat tuli, mennään uimaan 😎"
    );
    assert_eq!(
        verdict_text(Platform::Telegram, Verdict::NoDoubles, "mennään uimaan", "ei mennä uimaan"),
        "Ei tuplia, ei mennä uimaan 😢"
    );
    assert_eq!(
        verdict_text(Platform::Telegram, Verdict::WordingFailed, "mennään uimaan", ""),
        "Ei tuplia, mutta sanat loppuivat kesken 😢"
    );
}

#[test]
fn discord_verdicts() {
    assert_eq!(
        verdict_text(Platform::Discord, Verdict::Doubles, " mennään uimaan ", "ei mennä uimaan"),
        "Tuplat tuli, mennään uimaan. 😎"
    );
    assert_eq!(
        verdict_text(Platform::Discord, Verdict::NoDoubles, "mennään uimaan", "ei mennä uimaan"),
        "Ei tuplia, ei mennä uimaan. 😿"
    );
    assert_eq!(
        verdict_text(Platform::Discord, Verdict::WordingFailed, "mennään uimaan", ""),
        "Ei tuplia, mutta sanat loppuivat kesken. 😿"
    );
}

#[test]
fn round_says_what_it_waits_for() {
    let mut round = Roll::new(2, 5);
    assert_eq!(round.pending(), Pending::Start);
    round.step(RollEvent::Started);
    assert_eq!(round.pending(), Pending::Pause);
    round.step(RollEvent::PauseOver);
    assert_eq!(round.pending(), Pending::Rewording);
    round.step(RollEvent::Reworded { usable: true });
    assert_eq!(round.pending(), Pending::Nothing);
    let mut doubles = Roll::new(3, 3);
    doubles.step(RollEvent::Started);
    assert_eq!(doubles.pending(), Pending::Pause);
    doubles.step(RollEvent::PauseOver);
    assert_eq!(doubles.pending(), Pending::Nothing);
}

#[test]
fn last_message_repeats_the_dice_where_one_message_grows() {
    assert_eq!(
        final_report(Platform::Discord, 3, 3, Verdict::Doubles, "uimaan", ""),
        "Noppa 1: 3\nNoppa 2: 3\nTuplat tuli, uimaan. 😎"
    );
    assert_eq!(
        final_report(Platform::Discord, 3, 4, Verdict::NoDoubles, "uimaan", "ei uimaan"),
        "Noppa 1: 3\nNoppa 2: 4\nEi tuplia, ei uimaan. 😿"
    );
    assert_eq!(
        final_report(Platform::Telegram, 3, 4, Verdict::NoDoubles, "uimaan", "ei uimaan"),
        "Ei tuplia, ei uimaan 😢"
    );
}
