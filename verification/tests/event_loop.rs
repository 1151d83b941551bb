use std::cell::Cell;

use vuho_ui::channels::{
    discard_with, drain_pending, drain_stale, drain_with, read_on, Reading, Received,
};
use vuho_ui::domain::{DictationEvent, ErrorKind, InjectionOutcome, TranscriptionResult};
use vuho_ui::event_loop::{
    apply_batch, apply_events, hide_at_for_injection, session_completed_is_stale, track_session,
    Reaction, Tracker,
};
use vuho_ui::overlay::{outcome_hide_delay, Outcome, OverlayModel};

const NOW: u64 = 5_000_000_000;
const MS: u64 = 1_000_000;

fn completed(injection: InjectionOutcome) -> DictationEvent {
    DictationEvent::SessionCompleted {
        result: TranscriptionResult {
            full_text: "hello".to_string(),
            language: "en".to_string(),
        },
        injection,
    }
}

fn error(recoverable: bool, kind: ErrorKind) -> DictationEvent {
    DictationEvent::Error {
        message: "boom".to_string(),
        recoverable,
        kind,
    }
}

#[test]
fn session_completed_is_stale_when_no_session_is_currently_tracked() {
    assert!(session_completed_is_stale(false));
}

#[test]
fn session_completed_is_not_stale_while_a_session_is_tracked() {
    assert!(!session_completed_is_stale(true));
}

#[test]
fn track_session_applies_the_owning_completion_and_flags_a_second_one_stale() {
    let mut session_active = false;

    assert!(track_session(
        &DictationEvent::SessionStarted,
        &mut session_active
    ));
    assert!(session_active);

    let completed = completed(InjectionOutcome::Inserted);

    assert!(
        track_session(&completed, &mut session_active),
        "a session's own completion must be applied, not skipped as stale"
    );
    assert!(
        !session_active,
        "session_active must be cleared once this session's completion is applied"
    );

    assert!(
        !track_session(&completed, &mut session_active),
        "a second SessionCompleted with no intervening SessionStarted must be treated as stale"
    );
}

#[test]
fn hide_at_for_injection_inserted_schedules_hide() {
    let hide_at = hide_at_for_injection(&InjectionOutcome::Inserted, NOW);
    assert_eq!(
        hide_at,
        outcome_hide_delay(&InjectionOutcome::Inserted).map(|d| NOW + d * MS)
    );
    assert!(hide_at.is_some());
    assert_eq!(hide_at, Some(NOW + 1_900 * MS));
}

#[test]
fn hide_at_for_injection_clipboard_only_outlasts_inserted() {
    let inserted_at = hide_at_for_injection(&InjectionOutcome::Inserted, NOW).unwrap();
    let clipboard_at = hide_at_for_injection(
        &InjectionOutcome::ClipboardOnly {
            reason: "secure input active".into(),
        },
        NOW,
    )
    .unwrap();
    assert!(
        clipboard_at > inserted_at,
        "ClipboardOnly ({clipboard_at:?}) must outlast Inserted ({inserted_at:?})"
    );
}

#[test]
fn hide_at_for_injection_failed_stays_visible() {
    let hide_at = hide_at_for_injection(
        &InjectionOutcome::Failed {
            reason: "clipboard write failed".into(),
        },
        NOW,
    );
    assert_eq!(hide_at, None);
}

#[test]
fn a_session_brings_the_window_up_and_its_end_sets_the_deadline() {
    let mut tracker = Tracker::new();
    assert_eq!(
        tracker.note(&DictationEvent::SessionStarted, NOW),
        Reaction {
            applied: true,
            show: true,
            recording: Some(true),
            prompt_microphone: false,
        }
    );
    assert_eq!(tracker.hide_at, None);
    assert_eq!(
        tracker.note(&DictationEvent::Activity, NOW),
        Reaction {
            applied: true,
            show: false,
            recording: None,
            prompt_microphone: false,
        }
    );
    assert_eq!(
        tracker.note(&completed(InjectionOutcome::NothingToInject), NOW),
        Reaction {
            applied: true,
            show: false,
            recording: Some(false),
            prompt_microphone: false,
        }
    );
    assert_eq!(tracker.hide_at, Some(NOW + 900 * MS));
    assert!(!tracker.maybe_hide(NOW + 900 * MS - 1));
    assert!(tracker.maybe_hide(NOW + 900 * MS));
    assert!(!tracker.maybe_hide(NOW + 900 * MS));
}

#[test]
fn a_new_session_calls_the_deadline_off() {
    let mut tracker = Tracker::new();
    tracker.note(&DictationEvent::SessionStarted, NOW);
    tracker.note(&completed(InjectionOutcome::Inserted), NOW);
    tracker.note(&DictationEvent::SessionStarted, NOW + MS);
    assert_eq!(tracker.hide_at, None);
    assert!(!tracker.maybe_hide(u64::MAX));
}

#[test]
fn a_stale_completion_does_not_touch_the_deadline() {
    let mut tracker = Tracker::new();
    tracker.note(&DictationEvent::SessionStarted, NOW);
    tracker.note(&error(false, ErrorKind::Other), NOW);
    assert_eq!(tracker.hide_at, None);
    let reaction = tracker.note(&completed(InjectionOutcome::Inserted), NOW);
    assert!(!reaction.applied);
    assert_eq!(reaction.recording, None);
    assert_eq!(tracker.hide_at, None);
}

#[test]
fn errors_are_shown_and_recoverable_ones_go_away() {
    let mut tracker = Tracker::new();
    assert_eq!(
        tracker.note(&error(true, ErrorKind::MicPermissionDenied), NOW),
        Reaction {
            applied: true,
            show: true,
            recording: Some(false),
            prompt_microphone: true,
        }
    );
    assert_eq!(tracker.hide_at, Some(NOW + 900 * MS));
    let reaction = tracker.note(&error(false, ErrorKind::Other), NOW);
    assert!(reaction.show);
    assert!(!reaction.prompt_microphone);
    assert_eq!(tracker.hide_at, None);
}

#[test]
fn a_batch_hands_on_exactly_the_applied_events_in_order() {
    let mut model = OverlayModel::new(NOW);
    let partial = |text: &str| DictationEvent::PartialTranscript {
        confirmed_text: text.to_owned(),
        unconfirmed_text: String::new(),
    };
    apply_batch(
        &mut model,
        vec![
            DictationEvent::SessionStarted,
            partial("one"),
            partial("two"),
            completed(InjectionOutcome::Inserted),
        ],
        &vec![true, true, true, false],
        NOW,
    );
    assert!(model.recording);
    assert_eq!(model.confirmed_text, "two");
    apply_batch(
        &mut model,
        vec![completed(InjectionOutcome::Inserted)],
        &vec![true],
        NOW,
    );
    assert_eq!(model.outcome, Some(Outcome::Inserted));
}

#[test]
fn the_outcome_is_gone_when_the_window_goes() {
    for injection in [
        InjectionOutcome::Inserted,
        InjectionOutcome::ClipboardOnly { reason: "r".to_owned() },
        InjectionOutcome::NothingToInject,
    ] {
        let mut tracker = Tracker::new();
        let mut model = OverlayModel::new(NOW);
        tracker.note(&DictationEvent::SessionStarted, NOW);
        model.handle_event(DictationEvent::SessionStarted, NOW);
        let event = completed(injection);
        tracker.note(&event, NOW);
        model.handle_event(event, NOW);
        let deadline = tracker.hide_at.expect("these outcomes go away");
        model.expire_outcome(deadline - 101 * MS);
        assert!(model.outcome.is_some());
        model.expire_outcome(deadline);
        assert!(model.outcome.is_none());
    }
}

#[test]
fn an_open_channel_is_drained_in_order() {
    let (tx, rx) = crossbeam_channel::unbounded::<u32>();
    assert_eq!(drain_pending(&rx), Some(vec![]));
    tx.send(1).unwrap();
    tx.send(2).unwrap();
    tx.send(3).unwrap();
    assert_eq!(drain_pending(&rx), Some(vec![1, 2, 3]));
    assert_eq!(drain_pending(&rx), Some(vec![]));
}

#[test]
fn a_closed_channel_ends_the_drain() {
    let (tx, rx) = crossbeam_channel::unbounded::<u32>();
    tx.send(1).unwrap();
    drop(tx);
    assert_eq!(drain_pending(&rx), None);
    assert_eq!(drain_pending(&rx), None);
}

#[test]
fn stale_commands_are_taken_off_the_channel() {
    let (tx, rx) = crossbeam_channel::unbounded::<u32>();
    tx.send(7).unwrap();
    tx.send(8).unwrap();
    assert_eq!(drain_stale(&rx), vec![7, 8]);
    assert!(rx.is_empty());
    drop(tx);
    assert_eq!(drain_stale(&rx), Vec::<u32>::new());
}

#[test]
fn one_look_goes_on_pauses_or_ends() {
    assert_eq!(read_on(vec![1], Received::Item(2)), Reading::Going(vec![1, 2]));
    assert_eq!(read_on(vec![1], Received::Empty), Reading::Paused(vec![1]));
    assert_eq!(read_on(vec![1], Received::Closed), Reading::Ended(vec![1]));
}

#[test]
fn a_batch_is_acted_on_event_by_event() {
    let clock = Cell::new(NOW);
    let mut tracker = Tracker::new();
    let events = vec![
        DictationEvent::SessionStarted,
        DictationEvent::Activity,
        completed(InjectionOutcome::Inserted),
        completed(InjectionOutcome::NothingToInject),
    ];
    let (plan, seen) = apply_events(
        &mut tracker,
        &events,
        || {
            clock.set(clock.get() + MS);
            clock.get()
        },
        Vec::new(),
        |mut seen: Vec<Reaction>, _event: &DictationEvent, reaction: Reaction| {
            seen.push(reaction);
            seen
        },
    );
    assert!(plan.show);
    assert_eq!(plan.applied, vec![true, true, true, false]);
    let recording: Vec<Option<bool>> = seen.iter().map(|r| r.recording).collect();
    assert_eq!(recording, vec![Some(true), None, Some(false), None]);
    // The third event was looked at three milliseconds in.
    assert_eq!(tracker.hide_at, Some(NOW + 3 * MS + 1_900 * MS));
    assert!(!tracker.session_active);

    let (quiet, ()) = apply_events(
        &mut tracker,
        &vec![DictationEvent::Activity],
        || NOW,
        (),
        |(), _event: &DictationEvent, _reaction: Reaction| (),
    );
    assert!(!quiet.show);
    assert_eq!(quiet.applied, vec![true]);
}

fn refused() -> DictationEvent {
    error(false, ErrorKind::MicPermissionDenied)
}

#[test]
fn the_microphone_is_asked_for_once_per_refusal() {
    let mut tracker = Tracker::new();
    let events = vec![
        refused(),
        DictationEvent::SessionStarted,
        error(true, ErrorKind::Other),
        refused(),
        completed(InjectionOutcome::Inserted),
    ];
    let (plan, asked) = apply_events(
        &mut tracker,
        &events,
        || NOW,
        0,
        |asked: u64, _event: &DictationEvent, reaction: Reaction| {
            asked + u64::from(reaction.prompt_microphone)
        },
    );
    assert_eq!(asked, 2);
    assert_eq!(plan.applied, vec![true, true, true, true, false]);
}

#[test]
fn the_recording_mark_agrees_with_the_session_after_a_batch() {
    let batches = vec![
        (vec![DictationEvent::SessionStarted, DictationEvent::Activity], true),
        (vec![completed(InjectionOutcome::Inserted), DictationEvent::SessionStarted], true),
        (vec![refused(), completed(InjectionOutcome::Inserted)], false),
    ];
    let mut tracker = Tracker::new();
    let mut mark = false;
    for (events, expected) in batches {
        let (_plan, next) = apply_events(
            &mut tracker,
            &events,
            || NOW,
            mark,
            |mark: bool, _event: &DictationEvent, reaction: Reaction| {
                reaction.recording.unwrap_or(mark)
            },
        );
        mark = next;
        assert_eq!(mark, expected);
        assert_eq!(tracker.session_active, expected);
    }
}

#[test]
fn events_are_handed_over_in_order() {
    let mut tracker = Tracker::new();
    let events = vec![DictationEvent::SessionStarted, DictationEvent::Activity, refused()];
    let (_plan, seen) = apply_events(
        &mut tracker,
        &events,
        || NOW,
        Vec::new(),
        |mut seen: Vec<String>, event: &DictationEvent, _reaction: Reaction| {
            seen.push(format!("{event:?}"));
            seen
        },
    );
    let expected: Vec<String> = events.iter().map(|event| format!("{event:?}")).collect();
    assert_eq!(seen, expected);
}

/// A look at a queue whose oldest message comes last.
fn look_at_queue(open: bool, mut queue: Vec<u32>) -> (Received<u32>, Vec<u32>) {
    let found = match queue.pop() {
        Some(item) => Received::Item(item),
        None if open => Received::Empty,
        None => Received::Closed,
    };
    (found, queue)
}

#[test]
fn an_open_queue_is_drained_to_its_end() {
    let look = |queue: Vec<u32>| look_at_queue(true, queue);
    assert_eq!(drain_with(vec![3, 2, 1], look), (Some(vec![1, 2, 3]), vec![]));
    assert_eq!(drain_with(vec![], look), (Some(vec![]), vec![]));
    assert_eq!(discard_with(vec![3, 2, 1], look), (vec![1, 2, 3], vec![]));
}

#[test]
fn a_closed_queue_is_emptied_and_reported() {
    let look = |queue: Vec<u32>| look_at_queue(false, queue);
    assert_eq!(drain_with(vec![3, 2, 1], look), (None, vec![]));
    assert_eq!(drain_with(vec![], look), (None, vec![]));
    assert_eq!(discard_with(vec![3, 2, 1], look), (vec![1, 2, 3], vec![]));
}

#[test]
fn the_first_look_that_finds_nothing_is_the_last() {
    // Each look counts itself; only the third finds nothing.
    let look = |looks: u32| {
        let found = if looks == 2 { Received::Empty } else { Received::Item(looks) };
        (found, looks + 1)
    };
    assert_eq!(drain_with(0, look), (Some(vec![0, 1]), 3));
}
