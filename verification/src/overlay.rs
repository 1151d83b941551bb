//! The overlay: the live transcript, and what is shown for a moment when a
//! session ends.
//!
//! Times are nanoseconds on the caller's monotonic clock; durations are
//! milliseconds.

use vstd::prelude::*;
use vstd::utf8::{
    encode_utf8, encode_utf8_first_scalar, encode_utf8_valid_utf8, is_char_boundary,
    pop_first_scalar,
};

use crate::domain::{
    DictationEvent, DictationEventView, InjectionOutcome, InjectionOutcomeView,
};
use crate::text::join2;
use crate::theme::Tone;

verus! {

/// How long "✓ Inserted" stays on screen.
pub const INSERTED_DISPLAY_MS: u64 = 1800;

/// How long the clipboard note stays on screen: it asks the user to act.
pub const CLIPBOARD_ONLY_DISPLAY_MS: u64 = 3000;

/// How long a plain message stays on screen.
pub const DEFAULT_MESSAGE_DISPLAY_MS: u64 = 800;

/// How much longer the window stays than what it shows.
pub const HIDE_MARGIN_MS: u64 = 100;

/// How long the window stays after a recoverable error.
pub const DEFAULT_HIDE_DELAY_MS: u64 = 900;

/// Nanoseconds in a millisecond.
pub const NANOS_PER_MS: u64 = 1_000_000;

/// The end of a session, as shown in place of the transcript.
#[derive(Debug, PartialEq, Eq)]
pub enum Outcome {
    /// The text was typed into the application that had the focus.
    Inserted,
    /// The text is on the clipboard only: the user has to paste it.
    ClipboardOnly,
    /// A message. A persistent one stays until the next session starts.
    Message { text: String, persistent: bool },
}

/// [`Outcome`] as a mathematical value.
#[verifier::ext_equal]
pub ghost enum OutcomeView {
    Inserted,
    ClipboardOnly,
    Message { text: Seq<char>, persistent: bool },
}

impl View for Outcome {
    type V = OutcomeView;

    open spec fn view(&self) -> OutcomeView {
        match *self {
            Outcome::Inserted => OutcomeView::Inserted,
            Outcome::ClipboardOnly => OutcomeView::ClipboardOnly,
            Outcome::Message { text, persistent } => OutcomeView::Message { text: text@, persistent },
        }
    }
}

/// How long an outcome is shown; `None` for one that stays.
pub open spec fn display_ms(outcome: OutcomeView) -> Option<u64> {
    match outcome {
        OutcomeView::Inserted => Some(INSERTED_DISPLAY_MS),
        OutcomeView::ClipboardOnly => Some(CLIPBOARD_ONLY_DISPLAY_MS),
        OutcomeView::Message { persistent, .. } => if persistent {
            None
        } else {
            Some(DEFAULT_MESSAGE_DISPLAY_MS)
        },
    }
}

impl Outcome {
    /// How long this outcome stays on screen, in milliseconds; `None` for one
    /// that is never cleared by a timer.
    pub fn display_duration(&self) -> (r: Option<u64>)
        ensures
            r == display_ms(self@),
    {
        match self {
            Outcome::Inserted => Some(INSERTED_DISPLAY_MS),
            Outcome::ClipboardOnly => Some(CLIPBOARD_ONLY_DISPLAY_MS),
            Outcome::Message { persistent, .. } => if *persistent {
                None
            } else {
                Some(DEFAULT_MESSAGE_DISPLAY_MS)
            },
        }
    }

    /// The wording of the key-cap hint and whether it is prominent; `None` where
    /// the clipboard holds nothing to paste.
    pub fn chip_hint(&self) -> (r: Option<(&'static str, bool)>)
        ensures
            hint_view(r) == hint_of(self@),
    {
        match self {
            Outcome::Inserted => Some(("to paste again", false)),
            Outcome::ClipboardOnly => Some(("to paste", true)),
            Outcome::Message { .. } => None,
        }
    }

    /// The words that stand for this outcome, and how they are toned.
    pub fn headline(&self) -> (r: (String, Tone))
        ensures
            r.0@ == headline_text(self@),
            r.1 == headline_tone(self@),
    {
        match self {
            Outcome::Inserted => ("✓ Inserted".to_owned(), Tone::Primary),
            Outcome::ClipboardOnly => ("Copied to clipboard".to_owned(), Tone::Primary),
            Outcome::Message { text, .. } => (text.clone(), Tone::Secondary),
        }
    }
}

/// The wording of the key-cap hint for an outcome and whether it is prominent.
pub open spec fn hint_of(outcome: OutcomeView) -> Option<(Seq<char>, bool)> {
    match outcome {
        OutcomeView::Inserted => Some(("to paste again"@, false)),
        OutcomeView::ClipboardOnly => Some(("to paste"@, true)),
        OutcomeView::Message { .. } => None,
    }
}

/// A key-cap hint as a mathematical value.
pub open spec fn hint_view(hint: Option<(&'static str, bool)>) -> Option<(Seq<char>, bool)> {
    match hint {
        Some((text, prominent)) => Some((text@, prominent)),
        None => None,
    }
}

/// How an outcome's words are toned.
pub open spec fn headline_tone(outcome: OutcomeView) -> Tone {
    if outcome is Message {
        Tone::Secondary
    } else {
        Tone::Primary
    }
}

/// The words that stand for an outcome.
pub open spec fn headline_text(outcome: OutcomeView) -> Seq<char> {
    match outcome {
        OutcomeView::Inserted => "✓ Inserted"@,
        OutcomeView::ClipboardOnly => "Copied to clipboard"@,
        OutcomeView::Message { text, .. } => text,
    }
}

/// What is shown for what became of a session's text.
pub open spec fn outcome_of(injection: InjectionOutcomeView) -> OutcomeView {
    match injection {
        InjectionOutcomeView::Inserted => OutcomeView::Inserted,
        InjectionOutcomeView::ClipboardOnly { .. } => OutcomeView::ClipboardOnly,
        InjectionOutcomeView::Failed { reason } => OutcomeView::Message {
            text: reason,
            persistent: true,
        },
        InjectionOutcomeView::NothingToInject => OutcomeView::Message {
            text: "Nothing to insert"@,
            persistent: false,
        },
    }
}

/// What is shown for what became of a session's text. Text that was lost is
/// reported until the next session starts; a session without text gets a brief
/// note that claims nothing about the clipboard.
pub fn outcome_for_injection(injection: &InjectionOutcome) -> (r: Outcome)
    ensures
        r@ == outcome_of(injection@),
{
    match injection {
        InjectionOutcome::Inserted => Outcome::Inserted,
        InjectionOutcome::ClipboardOnly { .. } => Outcome::ClipboardOnly,
        InjectionOutcome::Failed { reason } => Outcome::Message {
            text: reason.clone(),
            persistent: true,
        },
        InjectionOutcome::NothingToInject => Outcome::Message {
            text: "Nothing to insert".to_owned(),
            persistent: false,
        },
    }
}

/// How long the window stays after a session that ended so: a margin longer than
/// the outcome is shown, or for good where it is never cleared.
pub open spec fn hide_delay_ms(injection: InjectionOutcomeView) -> Option<u64> {
    match injection {
        InjectionOutcomeView::Inserted => Some(1900u64),
        InjectionOutcomeView::ClipboardOnly { .. } => Some(3100u64),
        InjectionOutcomeView::NothingToInject => Some(900u64),
        InjectionOutcomeView::Failed { .. } => None,
    }
}

/// How long the window stays after a session that ended so, in milliseconds;
/// `None` where it must not go away by itself.
pub fn outcome_hide_delay(injection: &InjectionOutcome) -> (r: Option<u64>)
    ensures
        r == hide_delay_ms(injection@),
{
    let display = match injection {
        InjectionOutcome::Inserted => INSERTED_DISPLAY_MS,
        InjectionOutcome::ClipboardOnly { .. } => CLIPBOARD_ONLY_DISPLAY_MS,
        InjectionOutcome::NothingToInject => DEFAULT_MESSAGE_DISPLAY_MS,
        InjectionOutcome::Failed { .. } => return None,
    };
    Some(display + HIDE_MARGIN_MS)
}

/// The state of the overlay.
#[derive(Debug, PartialEq, Eq)]
pub struct OverlayModel {
    pub recording: bool,
    pub confirmed_text: String,
    pub unconfirmed_text: String,
    /// Whether the waveform is driven by activity, since `last_nudge`.
    pub active: bool,
    pub last_nudge: u64,
    pub outcome: Option<Outcome>,
    /// When the outcome was set.
    pub outcome_since: u64,
}

/// [`OverlayModel`] as a mathematical value.
#[verifier::ext_equal]
pub ghost struct OverlayView {
    pub recording: bool,
    pub confirmed_text: Seq<char>,
    pub unconfirmed_text: Seq<char>,
    pub active: bool,
    pub last_nudge: u64,
    pub outcome: Option<OutcomeView>,
    pub outcome_since: u64,
}

impl View for OverlayModel {
    type V = OverlayView;

    open spec fn view(&self) -> OverlayView {
        OverlayView {
            recording: self.recording,
            confirmed_text: self.confirmed_text@,
            unconfirmed_text: self.unconfirmed_text@,
            active: self.active,
            last_nudge: self.last_nudge,
            outcome: match self.outcome {
                Some(outcome) => Some(outcome@),
                None => None,
            },
            outcome_since: self.outcome_since,
        }
    }
}

/// The overlay after the activity that drives the waveform was nudged.
pub open spec fn nudged(model: OverlayView, now: u64) -> OverlayView {
    OverlayView { active: true, last_nudge: now, ..model }
}

/// The overlay at the end of a session: nothing of the session is left but its
/// outcome.
pub open spec fn ended_with(model: OverlayView, outcome: OutcomeView, now: u64) -> OverlayView {
    OverlayView {
        recording: false,
        confirmed_text: Seq::empty(),
        unconfirmed_text: Seq::empty(),
        active: false,
        outcome: Some(outcome),
        outcome_since: now,
        ..model
    }
}

/// The overlay after an event.
pub open spec fn after_event(model: OverlayView, event: DictationEventView, now: u64) -> OverlayView {
    match event {
        DictationEventView::SessionStarted => nudged(
            OverlayView {
                recording: true,
                confirmed_text: Seq::empty(),
                unconfirmed_text: Seq::empty(),
                outcome: None,
                ..model
            },
            now,
        ),
        DictationEventView::PartialTranscript { confirmed_text, unconfirmed_text } => nudged(
            OverlayView { confirmed_text, unconfirmed_text, ..model },
            now,
        ),
        DictationEventView::Activity => nudged(model, now),
        DictationEventView::SessionCompleted { injection, .. } => ended_with(
            model,
            outcome_of(injection),
            now,
        ),
        DictationEventView::Error { message, recoverable, .. } => ended_with(
            model,
            OutcomeView::Message { text: message, persistent: !recoverable },
            now,
        ),
    }
}

/// Whether an outcome set at `since` has been shown long enough at `now`.
pub open spec fn is_expired(outcome: Option<OutcomeView>, since: u64, now: u64) -> bool {
    match outcome {
        Some(o) => match display_ms(o) {
            Some(ms) => now - since >= ms * 1_000_000,
            None => false,
        },
        None => false,
    }
}

/// The overlay after its outcome was cleared if its time is up.
pub open spec fn after_expiry(model: OverlayView, now: u64) -> OverlayView {
    if is_expired(model.outcome, model.outcome_since, now) {
        OverlayView { outcome: None, ..model }
    } else {
        model
    }
}

impl OverlayModel {
    /// An overlay with nothing to show.
    pub fn new(now: u64) -> (r: Self)
        ensures
            r@ == fresh(now),
            r@ == (OverlayView {
                recording: false,
                confirmed_text: Seq::empty(),
                unconfirmed_text: Seq::empty(),
                active: false,
                last_nudge: now,
                outcome: None,
                outcome_since: now,
            }),
    {
        OverlayModel {
            recording: false,
            confirmed_text: String::new(),
            unconfirmed_text: String::new(),
            active: false,
            last_nudge: now,
            outcome: None,
            outcome_since: now,
        }
    }

    /// Take in one event.
    pub fn handle_event(&mut self, event: DictationEvent, now: u64)
        ensures
            final(self)@ == after_event(old(self)@, event@, now),
    {
        match event {
            DictationEvent::SessionStarted => {
                self.recording = true;
                self.confirmed_text = String::new();
                self.unconfirmed_text = String::new();
                self.outcome = None;
                self.nudge_activity(now);
            },
            DictationEvent::PartialTranscript { confirmed_text, unconfirmed_text } => {
                self.confirmed_text = confirmed_text;
                self.unconfirmed_text = unconfirmed_text;
                self.nudge_activity(now);
            },
            DictationEvent::Activity => {
                self.nudge_activity(now);
            },
            DictationEvent::SessionCompleted { injection, .. } => {
                self.end_session(outcome_for_injection(&injection), now);
            },
            DictationEvent::Error { message, recoverable, .. } => {
                self.end_session(Outcome::Message { text: message, persistent: !recoverable }, now);
            },
        }
    }

    /// Drive the waveform from now on.
    fn nudge_activity(&mut self, now: u64)
        ensures
            final(self)@ == nudged(old(self)@, now),
    {
        self.active = true;
        self.last_nudge = now;
    }

    /// Drop what is left of the session and show how it ended.
    fn end_session(&mut self, outcome: Outcome, now: u64)
        ensures
            final(self)@ == ended_with(old(self)@, outcome@, now),
    {
        self.recording = false;
        self.active = false;
        self.confirmed_text = String::new();
        self.unconfirmed_text = String::new();
        self.outcome = Some(outcome);
        self.outcome_since = now;
    }

    /// Clear the outcome once it has been on screen for as long as it should.
    pub fn expire_outcome(&mut self, now: u64)
        ensures
            final(self)@ == after_expiry(old(self)@, now),
    {
        let limit = match &self.outcome {
            Some(outcome) => outcome.display_duration(),
            None => None,
        };
        if let Some(ms) = limit {
            let elapsed: u64 = if now >= self.outcome_since {
                now - self.outcome_since
            } else {
                0
            };
            if elapsed >= ms * NANOS_PER_MS {
                self.outcome = None;
            }
        }
    }

    /// Whether there is anything of a session to show.
    pub fn has_session_content(&self) -> (r: bool)
        ensures
            r == (self@.recording || self@.outcome is Some),
            r == has_content(self@),
    {
        self.recording || self.outcome.is_some()
    }
}

/// The line of text in the middle of the overlay.
#[derive(Debug, PartialEq, Eq)]
pub enum TranscriptLine {
    /// How the last session ended, with the key-cap hint where there is one.
    Outcome { text: String, tone: Tone, hint: Option<(&'static str, bool)> },
    /// The transcript so far; the bytes from `dim_from` to `dim_to` are not
    /// confirmed yet.
    Paragraph { text: String, dim_from: usize, dim_to: usize },
}

/// Whether `line` shows the transcript, confirmed part first, with exactly the
/// unconfirmed part dimmed, and the two parts split between characters.
pub open spec fn is_paragraph(
    line: TranscriptLine,
    confirmed: Seq<char>,
    unconfirmed: Seq<char>,
) -> bool {
    &&& line matches TranscriptLine::Paragraph { text, dim_from, dim_to } && text@ == confirmed
        + unconfirmed && dim_from == encode_utf8(confirmed).len() && dim_to == encode_utf8(
        text@,
    ).len() && is_char_boundary(encode_utf8(text@), dim_from as int)
}

/// The bytes of a text are the bytes of its two parts, and they meet between two
/// characters.
pub proof fn parts_meet_between_characters(a: Seq<char>, b: Seq<char>)
    ensures
        encode_utf8(a + b) == encode_utf8(a) + encode_utf8(b),
        is_char_boundary(encode_utf8(a + b), encode_utf8(a).len() as int),
    decreases a.len(),
{
    encode_utf8_valid_utf8(a + b);
    if a.len() > 0 {
        let rest = a.drop_first();
        assert((a + b).drop_first() =~= rest + b);
        parts_meet_between_characters(rest, b);
        encode_utf8_first_scalar(a + b);
        encode_utf8_valid_utf8(rest + b);
        let bytes = encode_utf8(a + b);
        assert(pop_first_scalar(bytes) =~= encode_utf8(rest + b));
    }
}

/// The transcript as one text, the part that is not confirmed yet marked.
pub fn transcript_paragraph(confirmed: &str, unconfirmed: &str) -> (r: TranscriptLine)
    ensures
        is_paragraph(r, confirmed@, unconfirmed@),
{
    let text = join2(confirmed, unconfirmed);
    let dim_from = confirmed.as_bytes().len();
    let dim_to = text.as_str().as_bytes().len();
    proof {
        parts_meet_between_characters(confirmed@, unconfirmed@);
    }
    TranscriptLine::Paragraph { text, dim_from, dim_to }
}

impl OverlayModel {
    /// The line to show: how the last session ended while that is on screen, the
    /// live transcript otherwise.
    pub fn transcript_line(&self) -> (r: TranscriptLine)
        ensures
            is_line_of(r, self@),
            match self@.outcome {
                Some(outcome) => r matches TranscriptLine::Outcome { text, tone, hint } && text@
                    == headline_text(outcome) && tone == headline_tone(outcome) && hint_view(hint)
                    == hint_of(outcome),
                None => is_paragraph(r, self@.confirmed_text, self@.unconfirmed_text),
            },
    {
        match &self.outcome {
            Some(outcome) => {
                let (text, tone) = outcome.headline();
                TranscriptLine::Outcome { text, tone, hint: outcome.chip_hint() }
            },
            None => transcript_paragraph(
                self.confirmed_text.as_str(),
                self.unconfirmed_text.as_str(),
            ),
        }
    }
}

/// The window always stays exactly one margin longer than what it shows, and for
/// good exactly where what it shows is never cleared.
pub proof fn the_window_outlasts_what_it_shows(injection: InjectionOutcomeView)
    ensures
        hide_delay_ms(injection) == match display_ms(outcome_of(injection)) {
            Some(ms) => Some((ms + HIDE_MARGIN_MS) as u64),
            None => None,
        },
{
}

/// A note that asks the user to act stays longer than a bare confirmation, and a
/// confirmation longer than a note about nothing.
pub proof fn longer_notes_stay_longer(reason: Seq<char>)
    ensures
        hide_delay_ms(InjectionOutcomeView::ClipboardOnly { reason })->Some_0 > hide_delay_ms(
            InjectionOutcomeView::Inserted,
        )->Some_0 > hide_delay_ms(InjectionOutcomeView::NothingToInject)->Some_0,
{
}

/// Text that was lost is reported until the next session starts: no amount of
/// time clears it.
pub proof fn lost_text_is_reported_until_the_next_session(
    model: OverlayView,
    full_text: Seq<char>,
    language: Seq<char>,
    reason: Seq<char>,
    then: u64,
    now: u64,
)
    ensures
        ({
            let ended = after_event(
                model,
                DictationEventView::SessionCompleted {
                    full_text,
                    language,
                    injection: InjectionOutcomeView::Failed { reason },
                },
                then,
            );
            &&& ended.outcome == Some(OutcomeView::Message { text: reason, persistent: true })
            &&& after_expiry(ended, now) == ended
            &&& after_event(ended, DictationEventView::SessionStarted, now).outcome is None
        }),
{
}

/// The hint to paste is shown exactly where there is something to paste: never
/// beside lost text, an empty session or an error.
pub proof fn a_paste_hint_means_there_is_something_to_paste(injection: InjectionOutcomeView)
    ensures
        hint_of(outcome_of(injection)) is Some <==> (injection is Inserted
            || injection is ClipboardOnly),
{
}

/// A new session starts from a clean slate, whatever was on screen before.
pub proof fn a_session_starts_from_a_clean_slate(a: OverlayView, b: OverlayView, now: u64)
    requires
        a.outcome_since == b.outcome_since,
    ensures
        after_event(a, DictationEventView::SessionStarted, now) == after_event(
            b,
            DictationEventView::SessionStarted,
            now,
        ),
{
}

/// A session leaves no words behind: once it ends, only its outcome is shown.
pub proof fn a_session_leaves_no_words_behind(
    model: OverlayView,
    event: DictationEventView,
    now: u64,
)
    requires
        event is SessionCompleted || event is Error,
    ensures
        ({
            let ended = after_event(model, event, now);
            &&& ended.confirmed_text.len() == 0 && ended.unconfirmed_text.len() == 0
            &&& !ended.recording && !ended.active
            &&& ended.outcome is Some
        }),
{
}

/// Activity drives the waveform and nothing else: the words, the recording flag
/// and the outcome are the same before and after it.
pub proof fn activity_changes_no_words(model: OverlayView, now: u64)
    ensures
        ({
            let after = after_event(model, DictationEventView::Activity, now);
            &&& after.confirmed_text == model.confirmed_text
            &&& after.unconfirmed_text == model.unconfirmed_text
            &&& after.recording == model.recording
            &&& after.outcome == model.outcome
            &&& after.outcome_since == model.outcome_since
            &&& after.active
            &&& after.last_nudge == now
        }),
{
}

/// A partial transcript is kept word for word, the confirmed part apart from the
/// other, and takes the place of what was there; it drives the waveform, and it
/// neither starts a session nor ends one.
pub proof fn partial_transcripts_are_kept_word_for_word(
    model: OverlayView,
    confirmed: Seq<char>,
    unconfirmed: Seq<char>,
    now: u64,
)
    ensures
        ({
            let after = after_event(
                model,
                DictationEventView::PartialTranscript {
                    confirmed_text: confirmed,
                    unconfirmed_text: unconfirmed,
                },
                now,
            );
            &&& after.confirmed_text == confirmed
            &&& after.unconfirmed_text == unconfirmed
            &&& after.recording == model.recording
            &&& after.outcome == model.outcome
            &&& after.outcome_since == model.outcome_since
            &&& after.active
            &&& after.last_nudge == now
        }),
{
}

/// A session starts recording, without words and without the outcome of the one
/// before.
pub proof fn a_start_records_and_clears(model: OverlayView, now: u64)
    ensures
        ({
            let after = after_event(model, DictationEventView::SessionStarted, now);
            &&& after.recording
            &&& after.confirmed_text.len() == 0
            &&& after.unconfirmed_text.len() == 0
            &&& after.outcome is None
            &&& after.active
            &&& after.last_nudge == now
        }),
{
}

/// A session that ends says from then on what became of its text: inserted, on the
/// clipboard, lost with the reason and for good, or nothing to insert, for a while.
pub proof fn an_end_says_what_became_of_the_text(
    model: OverlayView,
    full_text: Seq<char>,
    language: Seq<char>,
    injection: InjectionOutcomeView,
    now: u64,
)
    ensures
        ({
            let after = after_event(
                model,
                DictationEventView::SessionCompleted { full_text, language, injection },
                now,
            );
            &&& after.outcome_since == now
            &&& injection is Inserted ==> after.outcome == Some(OutcomeView::Inserted)
            &&& injection is ClipboardOnly ==> after.outcome == Some(OutcomeView::ClipboardOnly)
            &&& injection matches InjectionOutcomeView::Failed { reason } ==> after.outcome == Some(
                OutcomeView::Message { text: reason, persistent: true },
            )
            &&& injection is NothingToInject ==> after.outcome == Some(
                OutcomeView::Message { text: "Nothing to insert"@, persistent: false },
            )
        }),
{
}

/// An error is shown in its own words, for a while if it is recoverable and for
/// good if not.
pub proof fn an_error_is_shown_in_its_own_words(
    model: OverlayView,
    message: Seq<char>,
    recoverable: bool,
    kind: crate::domain::ErrorKind,
    now: u64,
)
    ensures
        ({
            let after = after_event(
                model,
                DictationEventView::Error { message, recoverable, kind },
                now,
            );
            &&& after.outcome == Some(
                OutcomeView::Message { text: message, persistent: !recoverable },
            )
            &&& after.outcome_since == now
            &&& !after.recording
        }),
{
}

/// The overlay after a row of events.
pub open spec fn after_events(
    model: OverlayView,
    events: Seq<DictationEventView>,
    now: u64,
) -> OverlayView
    decreases events.len(),
{
    if events.len() == 0 {
        model
    } else {
        after_event(after_events(model, events.drop_last(), now), events.last(), now)
    }
}

/// During a session the overlay shows the words of the last partial transcript,
/// however much activity follows it.
pub proof fn the_last_words_stay_through_activity(
    model: OverlayView,
    events: Seq<DictationEventView>,
    confirmed: Seq<char>,
    unconfirmed: Seq<char>,
    now: u64,
)
    requires
        forall|i: int| 0 <= i < events.len() ==> (#[trigger] events[i]) is Activity,
    ensures
        ({
            let shown = after_event(
                model,
                DictationEventView::PartialTranscript {
                    confirmed_text: confirmed,
                    unconfirmed_text: unconfirmed,
                },
                now,
            );
            let after = after_events(shown, events, now);
            &&& after.confirmed_text == confirmed
            &&& after.unconfirmed_text == unconfirmed
            &&& after.recording == model.recording
            &&& after.outcome == model.outcome
        }),
    decreases events.len(),
{
    if events.len() > 0 {
        assert(events.last() == events[events.len() - 1]);
        the_last_words_stay_through_activity(
            model,
            events.drop_last(),
            confirmed,
            unconfirmed,
            now,
        );
    }
}

/// How long each outcome stays on screen: a confirmation 1.8 seconds, a note to
/// paste 3 seconds, a message 0.8 seconds, and a persistent one for good. The
/// window stays a tenth of a second longer.
pub proof fn how_long_outcomes_stay(text: Seq<char>, reason: Seq<char>)
    ensures
        display_ms(OutcomeView::Inserted) == Some(1800u64),
        display_ms(OutcomeView::ClipboardOnly) == Some(3000u64),
        display_ms(OutcomeView::Message { text, persistent: false }) == Some(800u64),
        display_ms(OutcomeView::Message { text, persistent: true }) is None,
        hide_delay_ms(InjectionOutcomeView::Inserted) == Some(1900u64),
        hide_delay_ms(InjectionOutcomeView::ClipboardOnly { reason }) == Some(3100u64),
        hide_delay_ms(InjectionOutcomeView::NothingToInject) == Some(900u64),
        hide_delay_ms(InjectionOutcomeView::Failed { reason }) is None,
{
}

/// An outcome is cleared exactly once it has been on screen for as long as it
/// should, and clearing it touches nothing else.
pub proof fn an_outcome_is_cleared_when_its_time_is_up(model: OverlayView, now: u64)
    ensures
        ({
            let after = after_expiry(model, now);
            &&& after.recording == model.recording
            &&& after.confirmed_text == model.confirmed_text
            &&& after.unconfirmed_text == model.unconfirmed_text
            &&& after.active == model.active
            &&& after.last_nudge == model.last_nudge
            &&& after.outcome_since == model.outcome_since
            &&& after.outcome is None || after.outcome == model.outcome
            &&& model.outcome matches Some(outcome) ==> (after.outcome is None <==> (match outcome {
                OutcomeView::Inserted => now - model.outcome_since >= 1_800_000_000,
                OutcomeView::ClipboardOnly => now - model.outcome_since >= 3_000_000_000,
                OutcomeView::Message { persistent, .. } => !persistent && now - model.outcome_since
                    >= 800_000_000,
            }))
        }),
{
}

/// The words for each outcome: a message stands for itself, and the hint to paste
/// is prominent exactly where the user has to act.
pub proof fn the_words_for_an_outcome(text: Seq<char>, persistent: bool)
    ensures
        headline_text(OutcomeView::Message { text, persistent }) == text,
        headline_text(OutcomeView::Inserted) == "✓ Inserted"@,
        headline_text(OutcomeView::ClipboardOnly) == "Copied to clipboard"@,
        headline_tone(OutcomeView::Message { text, persistent }) == Tone::Secondary,
        headline_tone(OutcomeView::Inserted) == Tone::Primary,
        headline_tone(OutcomeView::ClipboardOnly) == Tone::Primary,
        hint_of(OutcomeView::Message { text, persistent }) is None,
        hint_of(OutcomeView::Inserted) == Some(("to paste again"@, false)),
        hint_of(OutcomeView::ClipboardOnly) == Some(("to paste"@, true)),
{
}

/// Whether there is anything of a session to show.
pub open spec fn has_content(model: OverlayView) -> bool {
    model.recording || model.outcome is Some
}

/// There is something to show from the start of a session until its outcome is
/// cleared, and not before or after.
pub proof fn a_session_is_shown_from_start_to_clearing(
    model: OverlayView,
    event: DictationEventView,
    now: u64,
)
    ensures
        event is SessionStarted || event is SessionCompleted || event is Error ==> has_content(
            after_event(model, event, now),
        ),
        event is PartialTranscript || event is Activity ==> has_content(
            after_event(model, event, now),
        ) == has_content(model),
        !model.recording && after_expiry(model, now).outcome is None ==> !has_content(
            after_expiry(model, now),
        ),
{
}

/// The transcript is shown as the confirmed words followed at once by the others,
/// and the bytes that are dimmed are exactly those of the others.
pub proof fn exactly_the_unconfirmed_words_are_dimmed(
    line: TranscriptLine,
    confirmed: Seq<char>,
    unconfirmed: Seq<char>,
)
    requires
        is_paragraph(line, confirmed, unconfirmed),
    ensures
        line matches TranscriptLine::Paragraph { text, dim_from, dim_to } && text@ == confirmed
            + unconfirmed && 0 <= dim_from <= dim_to && dim_to == encode_utf8(text@).len()
            && encode_utf8(text@).subrange(0, dim_from as int) == encode_utf8(confirmed)
            && encode_utf8(text@).subrange(dim_from as int, dim_to as int) == encode_utf8(
            unconfirmed,
        ),
{
    parts_meet_between_characters(confirmed, unconfirmed);
    let bytes = encode_utf8(confirmed + unconfirmed);
    let at = encode_utf8(confirmed).len() as int;
    assert(bytes.subrange(0, at) =~= encode_utf8(confirmed));
    assert(bytes.subrange(at, bytes.len() as int) =~= encode_utf8(unconfirmed));
}

/// Whether `line` is what the overlay shows.
pub open spec fn is_line_of(line: TranscriptLine, model: OverlayView) -> bool {
    match model.outcome {
        Some(outcome) => line matches TranscriptLine::Outcome { text, tone, hint } && text@
            == headline_text(outcome) && tone == headline_tone(outcome) && hint_view(hint)
            == hint_of(outcome),
        None => is_paragraph(line, model.confirmed_text, model.unconfirmed_text),
    }
}

/// An outcome is shown as long as there is one, in place of the transcript, and
/// the transcript as long as there is none.
pub proof fn an_outcome_takes_the_place_of_the_transcript(line: TranscriptLine, model: OverlayView)
    requires
        is_line_of(line, model),
    ensures
        line is Outcome <==> model.outcome is Some,
        model.outcome matches Some(OutcomeView::Message { text, .. }) ==> (
        line matches TranscriptLine::Outcome { text: shown, hint, .. } && shown@ == text
            && hint is None),
        model.outcome == Some(OutcomeView::Inserted) ==> (line matches TranscriptLine::Outcome {
            text,
            tone,
            hint: Some((hint, prominent)),
        } && text@ == "✓ Inserted"@ && tone == Tone::Primary && hint@ == "to paste again"@
            && !prominent),
        model.outcome == Some(OutcomeView::ClipboardOnly) ==> (
        line matches TranscriptLine::Outcome { text, tone, hint: Some((hint, prominent)) } && text@
            == "Copied to clipboard"@ && tone == Tone::Primary && hint@ == "to paste"@
            && prominent),
        model.outcome is None ==> (line matches TranscriptLine::Paragraph { text, .. } && text@
            == model.confirmed_text + model.unconfirmed_text),
        model.outcome is None ==> is_paragraph(line, model.confirmed_text, model.unconfirmed_text),
{
}

/// The view of the overlay keeps everything it holds.
pub proof fn views_of_the_overlay_keep_everything(model: OverlayModel)
    ensures
        model@.recording == model.recording,
        model@.confirmed_text == model.confirmed_text@,
        model@.unconfirmed_text == model.unconfirmed_text@,
        model@.active == model.active,
        model@.last_nudge == model.last_nudge,
        model@.outcome_since == model.outcome_since,
        model@.outcome is Some <==> model.outcome is Some,
        model.outcome matches Some(Outcome::Message { text, persistent }) ==> model@.outcome
            == Some(OutcomeView::Message { text: text@, persistent }),
        model.outcome == Some(Outcome::Inserted) ==> model@.outcome == Some(OutcomeView::Inserted),
        model.outcome == Some(Outcome::ClipboardOnly) ==> model@.outcome == Some(
            OutcomeView::ClipboardOnly,
        ),
{
}

/// An overlay with nothing to show.
pub open spec fn fresh(now: u64) -> OverlayView {
    OverlayView {
        recording: false,
        confirmed_text: Seq::empty(),
        unconfirmed_text: Seq::empty(),
        active: false,
        last_nudge: now,
        outcome: None,
        outcome_since: now,
    }
}

/// A new overlay has nothing to show and nothing that drives its waveform.
pub proof fn a_new_overlay_is_empty(now: u64)
    ensures
        !has_content(fresh(now)),
        !fresh(now).active && !fresh(now).recording,
        fresh(now).confirmed_text.len() == 0 && fresh(now).unconfirmed_text.len() == 0,
        fresh(now).last_nudge == now && fresh(now).outcome_since == now,
{
}

} // verus!
