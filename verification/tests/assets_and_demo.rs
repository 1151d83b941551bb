use vuho_ui::assets::{list, load, Icon, GEAR_ICON, WAVEFORM_ICON};
use vuho_ui::demo::{
    confirmed_part, demo_script, demo_session, next_cycle, DemoStep, DEMO_PHRASES,
    DEMO_PHRASES_LONG,
};
use vuho_ui::domain::{DictationEvent, InjectionOutcome, TranscriptionResult};

#[test]
fn loads_both_known_icons() {
    assert!(load(WAVEFORM_ICON).is_some());
    assert!(load(GEAR_ICON).is_some());
    assert_eq!(load(WAVEFORM_ICON), Some(Icon::Waveform));
    assert_eq!(load(GEAR_ICON), Some(Icon::Gear));
}

#[test]
fn loads_none_for_an_unknown_path() {
    assert!(load("icons/nonexistent.svg").is_none());
}

#[test]
fn lists_the_icons_prefix() {
    let listed = list("icons");
    assert_eq!(listed.len(), 2);
    assert!(listed.contains(&WAVEFORM_ICON));
    assert!(listed.contains(&GEAR_ICON));
}

#[test]
fn lists_empty_for_an_unknown_prefix() {
    assert!(list("nope").is_empty());
}

#[test]
fn demo_script_alternates_phrases_and_outcome() {
    let (phrases_even, injection_even) = demo_script(0);
    assert_eq!(phrases_even, DEMO_PHRASES);
    assert!(matches!(injection_even, InjectionOutcome::Inserted));

    let (phrases_odd, injection_odd) = demo_script(1);
    assert_eq!(phrases_odd, DEMO_PHRASES_LONG);
    assert!(matches!(
        injection_odd,
        InjectionOutcome::ClipboardOnly { .. }
    ));

    let (phrases_even_again, _) = demo_script(42);
    assert_eq!(phrases_even_again, DEMO_PHRASES);
}

#[test]
fn demo_phrases_long_exceeds_three_lines_worth_of_text() {
    let (final_text, _) = DEMO_PHRASES_LONG
        .last()
        .expect("DEMO_PHRASES_LONG must be non-empty");
    assert!(
        final_text.len() > 90,
        "final phrase too short to demo wrapping: {final_text:?}"
    );
}

#[test]
fn the_cycle_starts_over_where_the_numbers_end() {
    assert_eq!(next_cycle(0), 1);
    assert_eq!(next_cycle(usize::MAX), 0);
    let (last, _) = demo_script(usize::MAX);
    assert_eq!(last, DEMO_PHRASES_LONG);
}

#[test]
fn the_unconfirmed_end_is_taken_off() {
    assert_eq!(confirmed_part("And so my dear", " dear"), "And so my");
    assert_eq!(confirmed_part("And so my", ""), "And so my");
    assert_eq!(confirmed_part("And so my", "xyz"), "And so my");
    assert_eq!(confirmed_part("dear", " dear"), "dear");
    assert_eq!(confirmed_part("Grüße", "üße"), "Gr");
}

#[test]
fn every_demo_phrase_ends_in_its_unconfirmed_part() {
    for (text, unconfirmed) in DEMO_PHRASES.iter().chain(DEMO_PHRASES_LONG.iter()) {
        assert_eq!(format!("{}{unconfirmed}", confirmed_part(text, unconfirmed)), *text);
    }
}

#[test]
fn a_demo_session_starts_grows_and_ends() {
    let steps = demo_session(
        &vec![("And so my", ""), ("And so my dear", " dear")],
        InjectionOutcome::Inserted,
    );
    let partial = |confirmed: &str, unconfirmed: &str| {
        DemoStep::Send(DictationEvent::PartialTranscript {
            confirmed_text: confirmed.to_owned(),
            unconfirmed_text: unconfirmed.to_owned(),
        })
    };
    assert_eq!(
        steps,
        vec![
            DemoStep::Send(DictationEvent::SessionStarted),
            partial("And so my", ""),
            DemoStep::Send(DictationEvent::Activity),
            DemoStep::Wait,
            partial("And so my", " dear"),
            DemoStep::Send(DictationEvent::Activity),
            DemoStep::Wait,
            DemoStep::Send(DictationEvent::SessionCompleted {
                result: TranscriptionResult {
                    full_text: "And so my dear".to_owned(),
                    language: "en".to_owned(),
                },
                injection: InjectionOutcome::Inserted,
            }),
        ]
    );
}
