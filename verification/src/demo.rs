//! The demonstration: made-up sessions that show the overlay at work without a
//! microphone or an engine.

use vstd::prelude::*;
use vstd::string::StrSliceExecFns;

use crate::domain::{
    DictationEvent, DictationEventView, InjectionOutcome, InjectionOutcomeView, TranscriptionResult,
};
use crate::text::same_text;

verus! {

/// How long the demonstration pauses between two sessions, in milliseconds.
pub const DEMO_PAUSE_MS: u64 = 2000;

/// How long it pauses between two steps of a session, in milliseconds.
pub const DEMO_UPDATE_INTERVAL_MS: u64 = 800;

/// The short script: the text so far, and how much at its end is not confirmed.
pub const DEMO_PHRASES: [(&'static str, &'static str); 5] = [
    ("And so my", ""),
    ("And so my dear", " dear"),
    ("And so my dear friends", " friends"),
    ("And so my dear friends, we must carry on", " carry on"),
    ("And so my dear friends, we must carry on with courage", " with courage"),
];

/// The long script, which does not fit into the overlay at once.
pub const DEMO_PHRASES_LONG: [(&'static str, &'static str); 4] = [
    ("Four score and seven years ago", ""),
    (
        "Four score and seven years ago our fathers brought forth on this continent",
        " brought forth on this continent",
    ),
    (
        "Four score and seven years ago our fathers brought forth on this continent a new nation, conceived in liberty",
        " a new nation, conceived in liberty",
    ),
    (
        "Four score and seven years ago our fathers brought forth on this continent a new nation, conceived in liberty, and dedicated to the proposition that all men are created equal.",
        " and dedicated to the proposition that all men are created equal.",
    ),
];

/// The script of a session and how it ends: the short one and the long one take
/// turns.
pub fn demo_script(cycle: usize) -> (r: (Vec<(&'static str, &'static str)>, InjectionOutcome))
    ensures
        (r.0@, r.1@) == script_of(cycle),
        cycle % 2 == 0 ==> r.0@ == DEMO_PHRASES@ && r.1@ == InjectionOutcomeView::Inserted,
        cycle % 2 == 1 ==> r.0@ == DEMO_PHRASES_LONG@ && r.1@
            == (InjectionOutcomeView::ClipboardOnly { reason: "demo: secure input active"@ }),
{
    if cycle % 2 == 0 {
        let script = DEMO_PHRASES;
        let mut phrases: Vec<(&'static str, &'static str)> = Vec::new();
        let mut i: usize = 0;
        while i < 5
            invariant
                i <= 5,
                script@ == DEMO_PHRASES@,
                script@.len() == 5,
                phrases@ == script@.take(i as int),
            decreases 5 - i,
        {
            phrases.push(script[i]);
            i = i + 1;
        }
        (phrases, InjectionOutcome::Inserted)
    } else {
        let script = DEMO_PHRASES_LONG;
        let mut phrases: Vec<(&'static str, &'static str)> = Vec::new();
        let mut i: usize = 0;
        while i < 4
            invariant
                i <= 4,
                script@ == DEMO_PHRASES_LONG@,
                script@.len() == 4,
                phrases@ == script@.take(i as int),
            decreases 4 - i,
        {
            phrases.push(script[i]);
            i = i + 1;
        }
        (
            phrases,
            InjectionOutcome::ClipboardOnly { reason: "demo: secure input active".to_owned() },
        )
    }
}

/// A text without what is not confirmed at its end; the whole of it where it does
/// not end so.
pub open spec fn confirmed_of(text: Seq<char>, unconfirmed: Seq<char>) -> Seq<char> {
    if unconfirmed.is_suffix_of(text) {
        text.take(text.len() - unconfirmed.len())
    } else {
        text
    }
}

/// A text without what is not confirmed at its end.
pub fn confirmed_part(text: &str, unconfirmed: &str) -> (r: String)
    ensures
        r@ == confirmed_of(text@, unconfirmed@),
{
    let n = text.unicode_len();
    let m = unconfirmed.unicode_len();
    if m > n {
        return text.to_owned();
    }
    let tail = text.substring_char(n - m, n);
    if same_text(tail, unconfirmed) {
        let head = text.substring_char(0, n - m);
        head.to_owned()
    } else {
        text.to_owned()
    }
}

/// One step of a made-up session.
#[derive(Debug, PartialEq, Eq)]
pub enum DemoStep {
    Send(DictationEvent),
    /// Let some time pass.
    Wait,
}

/// [`DemoStep`] as a mathematical value.
#[verifier::ext_equal]
pub ghost enum DemoStepView {
    Send(DictationEventView),
    Wait,
}

impl View for DemoStep {
    type V = DemoStepView;

    open spec fn view(&self) -> DemoStepView {
        match *self {
            DemoStep::Send(event) => DemoStepView::Send(event@),
            DemoStep::Wait => DemoStepView::Wait,
        }
    }
}

/// Steps as a sequence of mathematical values.
pub open spec fn step_views(steps: Seq<DemoStep>) -> Seq<DemoStepView> {
    steps.map_values(|s: DemoStep| s@)
}

/// The steps for one phrase of the script.
pub open spec fn phrase_steps(phrase: (&'static str, &'static str)) -> Seq<DemoStepView> {
    seq![
        DemoStepView::Send(
            DictationEventView::PartialTranscript {
                confirmed_text: confirmed_of(phrase.0@, phrase.1@),
                unconfirmed_text: phrase.1@,
            },
        ),
        DemoStepView::Send(DictationEventView::Activity),
        DemoStepView::Wait,
    ]
}

/// The steps of a session up to its end.
pub open spec fn running_steps(phrases: Seq<(&'static str, &'static str)>) -> Seq<DemoStepView>
    decreases phrases.len(),
{
    if phrases.len() == 0 {
        seq![DemoStepView::Send(DictationEventView::SessionStarted)]
    } else {
        running_steps(phrases.drop_last()) + phrase_steps(phrases.last())
    }
}

/// The steps of a session: it starts, grows phrase by phrase, and ends with the
/// last text as its result.
pub open spec fn session_steps(
    phrases: Seq<(&'static str, &'static str)>,
    injection: InjectionOutcomeView,
) -> Seq<DemoStepView> {
    running_steps(phrases).push(
        DemoStepView::Send(
            DictationEventView::SessionCompleted {
                full_text: if phrases.len() > 0 {
                    phrases.last().0@
                } else {
                    Seq::empty()
                },
                language: "en"@,
                injection,
            },
        ),
    )
}

/// The steps of a session.
pub fn demo_session(
    phrases: &Vec<(&'static str, &'static str)>,
    injection: InjectionOutcome,
) -> (r: Vec<DemoStep>)
    ensures
        step_views(r@) == session_steps(phrases@, injection@),
{
    let mut steps: Vec<DemoStep> = vec![DemoStep::Send(DictationEvent::SessionStarted)];
    let mut full_text = String::new();
    let mut i: usize = 0;
    while i < phrases.len()
        invariant
            i <= phrases@.len(),
            step_views(steps@) == running_steps(phrases@.take(i as int)),
            full_text@ == (if i > 0 {
                phrases@[i - 1].0@
            } else {
                Seq::empty()
            }),
        decreases phrases@.len() - i,
    {
        let (text, unconfirmed) = phrases[i];
        full_text = text.to_owned();
        steps.push(
            DemoStep::Send(
                DictationEvent::PartialTranscript {
                    confirmed_text: confirmed_part(text, unconfirmed),
                    unconfirmed_text: unconfirmed.to_owned(),
                },
            ),
        );
        steps.push(DemoStep::Send(DictationEvent::Activity));
        steps.push(DemoStep::Wait);
        assert(phrases@.take(i + 1).drop_last() =~= phrases@.take(i as int));
        i = i + 1;
    }
    assert(phrases@.take(phrases@.len() as int) =~= phrases@);
    steps.push(
        DemoStep::Send(
            DictationEvent::SessionCompleted {
                result: TranscriptionResult { full_text, language: "en".to_owned() },
                injection,
            },
        ),
    );
    steps
}

/// What is confirmed, followed by what is not, is the text so far, wherever the
/// text ends in what is not confirmed.
pub proof fn parts_make_up_the_text(text: Seq<char>, unconfirmed: Seq<char>)
    requires
        unconfirmed.is_suffix_of(text),
    ensures
        confirmed_of(text, unconfirmed) + unconfirmed == text,
{
}

/// The number of the next session.
pub fn next_cycle(cycle: usize) -> (r: usize)
    ensures
        r == following(cycle),
{
    if cycle == usize::MAX {
        0
    } else {
        cycle + 1
    }
}

/// The number of the next session; it starts over where the numbers end.
pub open spec fn following(cycle: usize) -> usize {
    if cycle == usize::MAX {
        0
    } else {
        (cycle + 1) as usize
    }
}

/// The short and the long script always take turns, even where the numbers start
/// over.
pub proof fn scripts_take_turns(cycle: usize)
    ensures
        (cycle % 2 == 0) != (following(cycle) % 2 == 0),
{
}

/// A text that does not end in what is not confirmed is taken as confirmed whole.
pub proof fn a_text_with_another_end_is_confirmed_whole(text: Seq<char>, unconfirmed: Seq<char>)
    requires
        !unconfirmed.is_suffix_of(text),
    ensures
        confirmed_of(text, unconfirmed) == text,
{
}

/// A made-up session starts, shows each phrase in order with a sign of activity
/// and a pause after it, and ends, in English, with the text of its last phrase.
pub proof fn a_made_up_session_shows_each_phrase_in_order(
    phrases: Seq<(&'static str, &'static str)>,
    injection: InjectionOutcomeView,
)
    ensures
        session_steps(phrases, injection).len() == 3 * phrases.len() + 2,
        session_steps(phrases, injection)[0] == DemoStepView::Send(
            DictationEventView::SessionStarted,
        ),
        forall|k: int|
            0 <= k < phrases.len() ==> {
                let phrase = #[trigger] phrases[k];
                &&& session_steps(phrases, injection)[3 * k + 1] == DemoStepView::Send(
                    DictationEventView::PartialTranscript {
                        confirmed_text: confirmed_of(phrase.0@, phrase.1@),
                        unconfirmed_text: phrase.1@,
                    },
                )
                &&& session_steps(phrases, injection)[3 * k + 2] == DemoStepView::Send(
                    DictationEventView::Activity,
                )
                &&& session_steps(phrases, injection)[3 * k + 3] is Wait
            },
        session_steps(phrases, injection).last() matches DemoStepView::Send(
            DictationEventView::SessionCompleted { full_text, language, injection: ends },
        ) && ends == injection && language == "en"@ && (phrases.len() > 0 ==> full_text
            == phrases.last().0@) && (phrases.len() == 0 ==> full_text.len() == 0),
{
    running_steps_show_each_phrase(phrases);
    let steps = session_steps(phrases, injection);
    let running = running_steps(phrases);
    assert forall|k: int| 0 <= k < phrases.len() implies {
        let phrase = #[trigger] phrases[k];
        &&& steps[3 * k + 1] == phrase_steps(phrase)[0]
        &&& steps[3 * k + 2] == phrase_steps(phrase)[1]
        &&& steps[3 * k + 3] == phrase_steps(phrase)[2]
    } by {
        assert(steps[3 * k + 1] == running[3 * k + 1]);
        assert(steps[3 * k + 2] == running[3 * k + 2]);
        assert(steps[3 * k + 3] == running[3 * k + 3]);
    }
}

/// The steps of a session before its end: the start, and three for each phrase.
proof fn running_steps_show_each_phrase(phrases: Seq<(&'static str, &'static str)>)
    ensures
        running_steps(phrases).len() == 3 * phrases.len() + 1,
        running_steps(phrases)[0] == DemoStepView::Send(DictationEventView::SessionStarted),
        forall|k: int|
            0 <= k < phrases.len() ==> {
                let phrase = #[trigger] phrases[k];
                &&& running_steps(phrases)[3 * k + 1] == phrase_steps(phrase)[0]
                &&& running_steps(phrases)[3 * k + 2] == phrase_steps(phrase)[1]
                &&& running_steps(phrases)[3 * k + 3] == phrase_steps(phrase)[2]
            },
    decreases phrases.len(),
{
    if phrases.len() > 0 {
        let earlier = phrases.drop_last();
        running_steps_show_each_phrase(earlier);
        assert forall|k: int| 0 <= k < phrases.len() implies {
            let phrase = #[trigger] phrases[k];
            &&& running_steps(phrases)[3 * k + 1] == phrase_steps(phrase)[0]
            &&& running_steps(phrases)[3 * k + 2] == phrase_steps(phrase)[1]
            &&& running_steps(phrases)[3 * k + 3] == phrase_steps(phrase)[2]
        } by {
            if k < earlier.len() {
                assert(earlier[k] == phrases[k]);
            }
        }
    }
}

/// Sessions are numbered one after the other, from 0 again where the numbers end.
pub proof fn sessions_are_numbered_one_by_one(cycle: usize)
    ensures
        cycle < usize::MAX ==> following(cycle) == cycle + 1,
        cycle == usize::MAX ==> following(cycle) == 0,
{
}

/// The views of steps keep them one for one, in order.
pub proof fn views_of_steps_keep_their_order(steps: Seq<DemoStep>, i: int)
    requires
        0 <= i < steps.len(),
    ensures
        step_views(steps).len() == steps.len(),
        match steps[i] {
            DemoStep::Send(event) => step_views(steps)[i] == DemoStepView::Send(event@),
            DemoStep::Wait => step_views(steps)[i] is Wait,
        },
{
}

/// The script of a session and how it ends.
pub open spec fn script_of(cycle: usize) -> (
    Seq<(&'static str, &'static str)>,
    InjectionOutcomeView,
) {
    if cycle % 2 == 0 {
        (DEMO_PHRASES@, InjectionOutcomeView::Inserted)
    } else {
        (
            DEMO_PHRASES_LONG@,
            InjectionOutcomeView::ClipboardOnly { reason: "demo: secure input active"@ },
        )
    }
}

/// The short script ends with its text inserted, the long one with its text on the
/// clipboard only, and every other session is of the same kind.
pub proof fn every_other_session_is_of_the_same_kind(cycle: usize)
    ensures
        script_of(cycle).1 is Inserted || script_of(cycle).1 is ClipboardOnly,
        script_of(cycle).1 is Inserted <==> script_of(cycle).0 == DEMO_PHRASES@ && cycle % 2 == 0,
        script_of(cycle).1 is ClipboardOnly ==> script_of(cycle).0 == DEMO_PHRASES_LONG@,
        script_of(following(cycle)).1 is Inserted <==> script_of(cycle).1 is ClipboardOnly,
        script_of(following(following(cycle))) == script_of(cycle),
{
    scripts_take_turns(cycle);
    scripts_take_turns(following(cycle));
}

} // verus!
