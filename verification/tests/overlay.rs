use vuho_ui::domain::{DictationEvent, ErrorKind, InjectionOutcome, TranscriptionResult};
use vuho_ui::overlay::{
    outcome_for_injection, outcome_hide_delay, transcript_paragraph, Outcome, OverlayModel,
    TranscriptLine, CLIPBOARD_ONLY_DISPLAY_MS, DEFAULT_HIDE_DELAY_MS, DEFAULT_MESSAGE_DISPLAY_MS,
    HIDE_MARGIN_MS, INSERTED_DISPLAY_MS,
};
use vuho_ui::theme::Tone;

const NOW: u64 = 1_000_000_000;
const MS: u64 = 1_000_000;

fn test_overlay_model() -> OverlayModel {
    OverlayModel::new(NOW)
}

#[test]
fn partial_transcript_sets_confirmed_and_unconfirmed_verbatim() {
    let mut model = test_overlay_model();
    model.handle_event(
        DictationEvent::PartialTranscript {
            confirmed_text: "And so my dear".to_string(),
            unconfirmed_text: " friends".to_string(),
        },
        NOW,
    );
    assert_eq!(model.confirmed_text, "And so my dear");
    assert_eq!(model.unconfirmed_text, " friends");
}

#[test]
fn partial_transcript_tolerates_unconfirmed_text_unrelated_to_confirmed() {
    let mut model = test_overlay_model();
    model.handle_event(
        DictationEvent::PartialTranscript {
            confirmed_text: "hello world".to_string(),
            unconfirmed_text: "xyz".to_string(),
        },
        NOW,
    );
    assert_eq!(model.confirmed_text, "hello world");
    assert_eq!(model.unconfirmed_text, "xyz");
}

#[test]
fn has_session_content_false_when_idle() {
    let model = test_overlay_model();
    assert!(!model.has_session_content());
}

#[test]
fn has_session_content_true_while_recording() {
    let mut model = test_overlay_model();
    model.handle_event(DictationEvent::SessionStarted, NOW);
    assert!(model.has_session_content());
}

fn completed(injection: InjectionOutcome) -> DictationEvent {
    DictationEvent::SessionCompleted {
        result: TranscriptionResult {
            full_text: "hello".to_string(),
            language: "en".to_string(),
        },
        injection,
    }
}

#[test]
fn has_session_content_true_while_an_outcome_is_on_screen() {
    let mut model = test_overlay_model();
    model.handle_event(completed(InjectionOutcome::Inserted), NOW);
    assert!(!model.recording);
    assert!(model.has_session_content());
}

#[test]
fn outcome_hide_delay_inserted_is_short() {
    let delay = outcome_hide_delay(&InjectionOutcome::Inserted).unwrap();
    assert_eq!(delay, INSERTED_DISPLAY_MS + HIDE_MARGIN_MS);
    assert!(
        delay < CLIPBOARD_ONLY_DISPLAY_MS + HIDE_MARGIN_MS,
        "Inserted must be shorter than ClipboardOnly"
    );
}

#[test]
fn outcome_hide_delay_clipboard_only_is_longer() {
    let delay = outcome_hide_delay(&InjectionOutcome::ClipboardOnly {
        reason: "secure input active".into(),
    })
    .unwrap();
    assert_eq!(delay, CLIPBOARD_ONLY_DISPLAY_MS + HIDE_MARGIN_MS);
}

#[test]
fn outcome_hide_delay_failed_never_expires() {
    let delay = outcome_hide_delay(&InjectionOutcome::Failed {
        reason: "clipboard write failed".into(),
    });
    assert_eq!(delay, None);
}

#[test]
fn outcome_for_injection_clipboard_only_maps_to_chip_hint() {
    let outcome = outcome_for_injection(&InjectionOutcome::ClipboardOnly {
        reason: "secure input active".into(),
    });
    let (hint, prominent) = outcome
        .chip_hint()
        .expect("ClipboardOnly must show a chip hint");
    assert_eq!(hint, "to paste");
    assert!(prominent);
}

#[test]
fn outcome_for_injection_inserted_maps_to_dimmed_chip_hint() {
    let outcome = outcome_for_injection(&InjectionOutcome::Inserted);
    let (hint, prominent) = outcome.chip_hint().expect("Inserted must show a chip hint");
    assert_eq!(hint, "to paste again");
    assert!(!prominent);
}

#[test]
fn outcome_for_injection_failed_never_shows_chip_hint() {
    let outcome = outcome_for_injection(&InjectionOutcome::Failed {
        reason: "clipboard write failed".into(),
    });
    assert!(outcome.chip_hint().is_none());
}

#[test]
fn outcome_hide_delay_nothing_to_inject_auto_hides_briefly() {
    let delay = outcome_hide_delay(&InjectionOutcome::NothingToInject).unwrap();
    assert_eq!(delay, DEFAULT_MESSAGE_DISPLAY_MS + HIDE_MARGIN_MS);
}

#[test]
fn outcome_for_injection_nothing_to_inject_is_a_brief_note_without_chip() {
    let outcome = outcome_for_injection(&InjectionOutcome::NothingToInject);
    assert!(matches!(
        &outcome,
        Outcome::Message {
            text,
            persistent: false
        } if text == "Nothing to insert"
    ));
    assert!(outcome.chip_hint().is_none());
}

#[test]
fn durations_are_exact() {
    assert_eq!(outcome_hide_delay(&InjectionOutcome::Inserted), Some(1900));
    assert_eq!(
        outcome_hide_delay(&InjectionOutcome::ClipboardOnly { reason: String::new() }),
        Some(3100)
    );
    assert_eq!(outcome_hide_delay(&InjectionOutcome::NothingToInject), Some(900));
    assert_eq!(DEFAULT_HIDE_DELAY_MS, DEFAULT_MESSAGE_DISPLAY_MS + HIDE_MARGIN_MS);
    assert_eq!(Outcome::Inserted.display_duration(), Some(1800));
    assert_eq!(Outcome::ClipboardOnly.display_duration(), Some(3000));
    let message = |persistent| Outcome::Message { text: "m".to_owned(), persistent };
    assert_eq!(message(false).display_duration(), Some(800));
    assert_eq!(message(true).display_duration(), None);
}

#[test]
fn an_outcome_expires_exactly_when_its_time_is_up() {
    let mut model = test_overlay_model();
    model.handle_event(completed(InjectionOutcome::Inserted), NOW);
    model.expire_outcome(NOW - 1);
    assert!(model.outcome.is_some());
    model.expire_outcome(NOW + 1800 * MS - 1);
    assert!(model.outcome.is_some());
    model.expire_outcome(NOW + 1800 * MS);
    assert!(model.outcome.is_none());
}

#[test]
fn lost_text_stays_on_screen_until_the_next_session() {
    let mut model = test_overlay_model();
    model.handle_event(
        completed(InjectionOutcome::Failed { reason: "clipboard write failed".to_owned() }),
        NOW,
    );
    model.expire_outcome(u64::MAX);
    assert_eq!(
        model.transcript_line(),
        TranscriptLine::Outcome {
            text: "clipboard write failed".to_owned(),
            tone: Tone::Secondary,
            hint: None,
        }
    );
    model.handle_event(DictationEvent::SessionStarted, NOW);
    assert!(model.outcome.is_none());
}

#[test]
fn an_error_ends_the_session() {
    let mut model = test_overlay_model();
    model.handle_event(DictationEvent::SessionStarted, NOW);
    model.handle_event(
        DictationEvent::PartialTranscript {
            confirmed_text: "a".to_owned(),
            unconfirmed_text: "b".to_owned(),
        },
        NOW,
    );
    assert!(model.active);
    model.handle_event(
        DictationEvent::Error {
            message: "boom".to_owned(),
            recoverable: false,
            kind: ErrorKind::Other,
        },
        NOW + MS,
    );
    assert!(!model.recording);
    assert!(!model.active);
    assert_eq!(model.confirmed_text, "");
    assert_eq!(model.unconfirmed_text, "");
    assert_eq!(
        model.outcome,
        Some(Outcome::Message { text: "boom".to_owned(), persistent: true })
    );
    assert_eq!(model.outcome_since, NOW + MS);
}

#[test]
fn activity_drives_the_waveform() {
    let mut model = test_overlay_model();
    assert!(!model.active);
    model.handle_event(DictationEvent::Activity, NOW + 7);
    assert!(model.active);
    assert_eq!(model.last_nudge, NOW + 7);
    assert!(!model.has_session_content());
}

#[test]
fn the_transcript_line_shows_the_outcome_or_the_transcript() {
    let mut model = test_overlay_model();
    model.handle_event(
        DictationEvent::PartialTranscript {
            confirmed_text: "Grüße, ".to_owned(),
            unconfirmed_text: "łódź".to_owned(),
        },
        NOW,
    );
    let line = model.transcript_line();
    assert_eq!(
        line,
        TranscriptLine::Paragraph {
            text: "Grüße, łódź".to_owned(),
            dim_from: 9,
            dim_to: 16,
        }
    );
    if let TranscriptLine::Paragraph { text, dim_from, dim_to } = line {
        assert_eq!(&text[dim_from..dim_to], "łódź");
    }
    model.handle_event(completed(InjectionOutcome::Inserted), NOW);
    assert_eq!(
        model.transcript_line(),
        TranscriptLine::Outcome {
            text: "✓ Inserted".to_owned(),
            tone: Tone::Primary,
            hint: Some(("to paste again", false)),
        }
    );
    model.handle_event(
        completed(InjectionOutcome::ClipboardOnly { reason: "r".to_owned() }),
        NOW,
    );
    assert_eq!(
        model.transcript_line(),
        TranscriptLine::Outcome {
            text: "Copied to clipboard".to_owned(),
            tone: Tone::Primary,
            hint: Some(("to paste", true)),
        }
    );
}

#[test]
fn an_empty_transcript_is_an_empty_paragraph() {
    assert_eq!(
        transcript_paragraph("", ""),
        TranscriptLine::Paragraph { text: String::new(), dim_from: 0, dim_to: 0 }
    );
}
