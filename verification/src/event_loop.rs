//! What the dictation pipeline's events do to the overlay window, the menu bar
//! and the overlay's contents.

use vstd::prelude::*;

use crate::domain::{
    DictationEvent, DictationEventView, ErrorKind, InjectionOutcome, InjectionOutcomeView,
};
use crate::overlay::{
    after_event, after_expiry, hide_delay_ms, outcome_hide_delay, OverlayModel, OverlayView,
    DEFAULT_HIDE_DELAY_MS, NANOS_PER_MS,
};

verus! {

/// How often the channels are looked at, in milliseconds.
pub const DRAIN_POLL_INTERVAL_MS: u64 = 16;

/// The longest time, in nanoseconds, that a deadline lies ahead.
pub const LONGEST_HIDE_NS: u64 = 3_100_000_000;

/// When the window goes away after a session that ended so.
pub open spec fn deadline_of(injection: InjectionOutcomeView, now: u64) -> Option<u64> {
    match hide_delay_ms(injection) {
        Some(ms) => Some((now + ms * 1_000_000) as u64),
        None => None,
    }
}

/// When the window goes away after a session that ended so; `None` where it
/// stays, which is where the text was lost.
pub fn hide_at_for_injection(injection: &InjectionOutcome, now: u64) -> (r: Option<u64>)
    requires
        now <= u64::MAX - LONGEST_HIDE_NS,
    ensures
        r == deadline_of(injection@, now),
        r matches Some(t) ==> t > now && t - now == hide_delay_ms(injection@)->Some_0 * 1_000_000,
{
    match outcome_hide_delay(injection) {
        Some(ms) => Some(now + ms * NANOS_PER_MS),
        None => None,
    }
}

/// Whether the end of a session that is reported now belongs to no session:
/// exactly when none is being tracked.
pub fn session_completed_is_stale(session_active: bool) -> (r: bool)
    ensures
        r == !session_active,
{
    !session_active
}

/// Whether an event is acted on while sessions are tracked so.
pub open spec fn is_applied(event: DictationEventView, session_active: bool) -> bool {
    event is SessionCompleted ==> session_active
}

/// Whether a session is tracked after an event.
pub open spec fn active_after(event: DictationEventView, session_active: bool) -> bool {
    match event {
        DictationEventView::SessionStarted => true,
        DictationEventView::SessionCompleted { .. } => false,
        DictationEventView::Error { .. } => false,
        _ => session_active,
    }
}

/// Track sessions through one event, and say whether the event is acted on: the
/// end of a session that is not being tracked is not.
pub fn track_session(event: &DictationEvent, session_active: &mut bool) -> (r: bool)
    ensures
        r == is_applied(event@, *old(session_active)),
        *final(session_active) == active_after(event@, *old(session_active)),
{
    match event {
        DictationEvent::SessionStarted => {
            *session_active = true;
            true
        },
        DictationEvent::SessionCompleted { .. } => {
            if session_completed_is_stale(*session_active) {
                false
            } else {
                *session_active = false;
                true
            }
        },
        DictationEvent::Error { .. } => {
            *session_active = false;
            true
        },
        _ => true,
    }
}

/// What is kept from one batch of events to the next.
#[derive(Debug, Clone, Copy, PartialEq, Eq, Structural)]
pub struct Tracker {
    /// When the window goes away.
    pub hide_at: Option<u64>,
    /// Whether a session is being tracked.
    pub session_active: bool,
}

/// What one event asks for, besides its effect on the overlay's contents.
#[derive(Debug, Clone, Copy, PartialEq, Eq, Structural)]
pub struct Reaction {
    /// Whether the overlay takes the event in.
    pub applied: bool,
    /// Whether the window is brought up.
    pub show: bool,
    /// Whether the menu bar is to say that a recording is on, where it has to
    /// say something new.
    pub recording: Option<bool>,
    /// Whether the user is asked for access to the microphone.
    pub prompt_microphone: bool,
}

/// Whether an event says that access to the microphone was refused.
pub open spec fn is_microphone_refusal(event: DictationEventView) -> bool {
    event matches DictationEventView::Error { kind, .. } && kind == ErrorKind::MicPermissionDenied
}

/// What an event asks for.
pub open spec fn reaction_to(event: DictationEventView, session_active: bool) -> Reaction {
    let applied = is_applied(event, session_active);
    Reaction {
        applied,
        show: event is SessionStarted || event is Error,
        recording: if !applied {
            None
        } else {
            match event {
                DictationEventView::SessionStarted => Some(true),
                DictationEventView::SessionCompleted { .. } => Some(false),
                DictationEventView::Error { .. } => Some(false),
                _ => None,
            }
        },
        prompt_microphone: is_microphone_refusal(event),
    }
}

/// What is kept after an event.
pub open spec fn tracker_after(tracker: Tracker, event: DictationEventView, now: u64) -> Tracker {
    Tracker {
        hide_at: if !is_applied(event, tracker.session_active) {
            tracker.hide_at
        } else {
            match event {
                DictationEventView::SessionStarted => None,
                DictationEventView::SessionCompleted { injection, .. } => deadline_of(injection, now),
                DictationEventView::Error { recoverable, .. } => if recoverable {
                    Some((now + 900_000_000) as u64)
                } else {
                    None
                },
                _ => tracker.hide_at,
            }
        },
        session_active: active_after(event, tracker.session_active),
    }
}

impl Tracker {
    /// The window never goes away under a live session.
    pub open spec fn wf(&self) -> bool {
        self.session_active ==> self.hide_at is None
    }

    /// Nothing tracked, nothing due.
    pub fn new() -> (r: Self)
        ensures
            r.wf(),
            r == (Tracker { hide_at: None, session_active: false }),
    {
        Tracker { hide_at: None, session_active: false }
    }

    /// Take in one event that arrives at `now`. A session brings the window up,
    /// and so does an error, even one of a session that never got going; the end
    /// of either sets the deadline after which the window goes away.
    pub fn note(&mut self, event: &DictationEvent, now: u64) -> (r: Reaction)
        requires
            old(self).wf(),
            now <= u64::MAX - LONGEST_HIDE_NS,
        ensures
            final(self).wf(),
            *final(self) == tracker_after(*old(self), event@, now),
            r == reaction_to(event@, old(self).session_active),
    {
        let applied = track_session(event, &mut self.session_active);
        if !applied {
            return Reaction {
                applied: false,
                show: false,
                recording: None,
                prompt_microphone: false,
            };
        }
        match event {
            DictationEvent::SessionStarted => {
                self.hide_at = None;
                Reaction {
                    applied: true,
                    show: true,
                    recording: Some(true),
                    prompt_microphone: false,
                }
            },
            DictationEvent::SessionCompleted { injection, .. } => {
                self.hide_at = hide_at_for_injection(injection, now);
                Reaction {
                    applied: true,
                    show: false,
                    recording: Some(false),
                    prompt_microphone: false,
                }
            },
            DictationEvent::Error { recoverable, kind, .. } => {
                self.hide_at = if *recoverable {
                    Some(now + DEFAULT_HIDE_DELAY_MS * NANOS_PER_MS)
                } else {
                    None
                };
                Reaction {
                    applied: true,
                    show: true,
                    recording: Some(false),
                    prompt_microphone: *kind == ErrorKind::MicPermissionDenied,
                }
            },
            _ => Reaction {
                applied: true,
                show: false,
                recording: None,
                prompt_microphone: false,
            },
        }
    }

    /// Whether the window goes away now: once its deadline has come. The deadline
    /// is then spent.
    pub fn maybe_hide(&mut self, now: u64) -> (r: bool)
        ensures
            r == (old(self).hide_at matches Some(t) && now >= t),
            r == is_due(*old(self), now),
            final(self).session_active == old(self).session_active,
            final(self).hide_at == if r {
                None
            } else {
                old(self).hide_at
            },
            old(self).wf() ==> final(self).wf(),
    {
        if let Some(t) = self.hide_at {
            if now >= t {
                self.hide_at = None;
                return true;
            }
        }
        false
    }
}

/// Events as a sequence of mathematical values.
pub open spec fn event_views(events: Seq<DictationEvent>) -> Seq<DictationEventView> {
    events.map_values(|e: DictationEvent| e@)
}

/// What is kept after a row of events that arrive at these times.
pub open spec fn tracker_after_all(
    tracker: Tracker,
    events: Seq<DictationEventView>,
    times: Seq<u64>,
) -> Tracker
    decreases events.len(),
{
    if events.len() == 0 {
        tracker
    } else {
        tracker_after(
            tracker_after_all(tracker, events.drop_last(), times.drop_last()),
            events.last(),
            times.last(),
        )
    }
}

/// Tracking sessions through a row of events.
pub open spec fn active_after_all(events: Seq<DictationEventView>, session_active: bool) -> bool
    decreases events.len(),
{
    if events.len() == 0 {
        session_active
    } else {
        active_after(events.last(), active_after_all(events.drop_last(), session_active))
    }
}

/// Which events of a row are acted on.
pub open spec fn applied_among(events: Seq<DictationEventView>, session_active: bool) -> Seq<bool> {
    Seq::new(
        events.len(),
        |i: int| is_applied(events[i], active_after_all(events.take(i), session_active)),
    )
}

/// Whether a row of events brings the window up.
pub open spec fn shows_window(events: Seq<DictationEventView>) -> bool {
    exists|i: int|
        0 <= i < events.len() && ((#[trigger] events[i]) is SessionStarted || events[i] is Error)
}

/// What is left to do about a batch of events once their effects outside the
/// overlay are done.
#[derive(Debug, PartialEq, Eq)]
pub struct BatchPlan {
    /// Whether the window is brought up.
    pub show: bool,
    /// Which events the overlay takes in.
    pub applied: Vec<bool>,
}

/// Whether `perform` can be handed this event with what it asks for, and lead
/// from `before` to `after`.
pub open spec fn performs<W, E: Fn(W, &DictationEvent, Reaction) -> W>(
    perform: E,
    before: W,
    event: DictationEvent,
    reaction: Reaction,
    after: W,
) -> bool {
    perform.ensures((before, &event, reaction), after)
}

/// Whether `perform` was handed the events of a row, each once, in order and with
/// what it asks for, and led from `before` to `after`.
pub open spec fn performed<W, E: Fn(W, &DictationEvent, Reaction) -> W>(
    perform: E,
    before: W,
    events: Seq<DictationEvent>,
    session_active: bool,
    after: W,
) -> bool
    decreases events.len(),
{
    if events.len() == 0 {
        after == before
    } else {
        let earlier = events.drop_last();
        let running = active_after_all(event_views(earlier), session_active);
        exists|between: W| #[trigger]
            performs(
                perform,
                between,
                events.last(),
                reaction_to(events.last()@, running),
                after,
            ) && performed(perform, before, earlier, session_active, between)
    }
}

/// Act on a batch of events, in order: track the sessions, set the deadline, and
/// hand each event with what it asks for to `perform`, once, before the next event
/// is looked at. `outside` is what `perform` acts on; it is passed from one event
/// to the next. `clock` is read once for each event, when its turn comes. What is
/// left for the overlay is in the result.
pub fn apply_events<W, K: Fn() -> u64, E: Fn(W, &DictationEvent, Reaction) -> W>(
    tracker: &mut Tracker,
    events: &Vec<DictationEvent>,
    clock: K,
    outside: W,
    perform: E,
) -> (r: (BatchPlan, W))
    requires
        old(tracker).wf(),
        clock.requires(()),
        forall|now: u64| #[trigger] clock.ensures((), now) ==> now <= u64::MAX - LONGEST_HIDE_NS,
        forall|outside: W, event: &DictationEvent, reaction: Reaction| #[trigger]
            perform.requires((outside, event, reaction)),
    ensures
        final(tracker).wf(),
        exists|times: Seq<u64>|
            {
                &&& times.len() == events@.len()
                &&& forall|i: int| 0 <= i < times.len() ==> clock.ensures((), #[trigger] times[i])
                &&& *final(tracker) == #[trigger] tracker_after_all(
                    *old(tracker),
                    event_views(events@),
                    times,
                )
            },
        performed(perform, outside, events@, old(tracker).session_active, r.1),
        r.0.applied@ == applied_among(event_views(events@), old(tracker).session_active),
        r.0.show == shows_window(event_views(events@)),
{
    let ghost start = *tracker;
    let ghost all = event_views(events@);
    let ghost mut times: Seq<u64> = Seq::empty();
    let mut at = outside;
    let mut show = false;
    let mut applied: Vec<bool> = Vec::new();
    let mut i: usize = 0;
    while i < events.len()
        invariant
            i <= events@.len(),
            all == event_views(events@),
            start.wf(),
            tracker.wf(),
            clock.requires(()),
            forall|now: u64| #[trigger]
                clock.ensures((), now) ==> now <= u64::MAX - LONGEST_HIDE_NS,
            forall|outside: W, event: &DictationEvent, reaction: Reaction| #[trigger]
                perform.requires((outside, event, reaction)),
            times.len() == i,
            forall|j: int| 0 <= j < times.len() ==> clock.ensures((), #[trigger] times[j]),
            *tracker == tracker_after_all(start, all.take(i as int), times),
            tracker.session_active == active_after_all(all.take(i as int), start.session_active),
            performed(perform, outside, events@.take(i as int), start.session_active, at),
            applied@.len() == i,
            forall|j: int|
                0 <= j < i ==> #[trigger] applied@[j] == applied_among(all, start.session_active)[j],
            show == shows_window(all.take(i as int)),
        decreases events@.len() - i,
    {
        let now = clock();
        let reaction = tracker.note(&events[i], now);
        let ghost before = at;
        at = perform(at, &events[i], reaction);
        proof {
            let earlier = all.take(i as int);
            let longer = all.take(i + 1);
            let moments = times.push(now);
            assert(longer.drop_last() =~= earlier);
            assert(moments.drop_last() =~= times);
            times = moments;
            assert(events@.take(i + 1).drop_last() =~= events@.take(i as int));
            assert(event_views(events@.take(i as int)) =~= earlier);
            assert(performs(perform, before, events@[i as int], reaction, at));
        }
        applied.push(reaction.applied);
        if reaction.show {
            show = true;
        }
        i = i + 1;
    }
    assert(all.take(all.len() as int) =~= all);
    assert(events@.take(events@.len() as int) =~= events@);
    (BatchPlan { show, applied }, at)
}

/// The overlay after the events of a batch that are acted on.
pub open spec fn after_batch(
    model: OverlayView,
    events: Seq<DictationEvent>,
    applied: Seq<bool>,
    now: u64,
) -> OverlayView
    decreases events.len(),
{
    if events.len() == 0 {
        model
    } else {
        let before = after_batch(model, events.drop_last(), applied.drop_last(), now);
        if applied.last() {
            after_event(before, events.last()@, now)
        } else {
            before
        }
    }
}

/// Hand the overlay the events of a batch that are acted on, in order.
pub fn apply_batch(
    model: &mut OverlayModel,
    events: Vec<DictationEvent>,
    applied: &Vec<bool>,
    now: u64,
)
    requires
        events@.len() == applied@.len(),
    ensures
        final(model)@ == after_batch(old(model)@, events@, applied@, now),
{
    let ghost start = model@;
    let ghost all = events@;
    let mut rest = events;
    let mut queue: Vec<DictationEvent> = Vec::new();
    // Reverse the events, so that they can be taken off one by one in order.
    while rest.len() > 0
        invariant
            rest@.len() + queue@.len() == all.len(),
            rest@ == all.take(rest@.len() as int),
            forall|i: int| 0 <= i < queue@.len() ==> #[trigger] queue@[i] == all[all.len() - 1 - i],
        decreases rest@.len(),
    {
        if let Some(event) = rest.pop() {
            queue.push(event);
        }
    }
    let mut i: usize = 0;
    while i < applied.len()
        invariant
            i <= applied@.len(),
            applied@.len() == all.len(),
            queue@.len() == all.len() - i,
            forall|j: int| 0 <= j < queue@.len() ==> #[trigger] queue@[j] == all[all.len() - 1 - j],
            model@ == after_batch(start, all.take(i as int), applied@.take(i as int), now),
        decreases applied@.len() - i,
    {
        proof {
            assert(all.take(i + 1).drop_last() =~= all.take(i as int));
            assert(applied@.take(i + 1).drop_last() =~= applied@.take(i as int));
        }
        if let Some(event) = queue.pop() {
            if applied[i] {
                model.handle_event(event, now);
            }
        }
        i = i + 1;
    }
    assert(applied@.take(all.len() as int) =~= applied@);
}

/// After a session has ended, no end of a session is acted on before another
/// session has started, however many events pass.
pub proof fn no_end_without_a_start(events: Seq<DictationEventView>, end: DictationEventView)
    requires
        forall|i: int| 0 <= i < events.len() ==> !(#[trigger] events[i] is SessionStarted),
        end is SessionCompleted,
    ensures
        !active_after_all(events, false),
        !is_applied(end, active_after_all(events, false)),
    decreases events.len(),
{
    if events.len() > 0 {
        no_end_without_a_start(events.drop_last(), end);
    }
}

/// The end of a session that started and met no error in between is always acted
/// on, and tracking stops with it.
pub proof fn a_session_s_own_end_is_acted_on(
    before: bool,
    events: Seq<DictationEventView>,
    end: DictationEventView,
)
    requires
        forall|i: int|
            0 <= i < events.len() ==> (#[trigger] events[i] is PartialTranscript || events[i] is Activity),
        end is SessionCompleted,
    ensures
        ({
            let started = active_after(DictationEventView::SessionStarted, before);
            let running = active_after_all(events, started);
            running && is_applied(end, running) && !active_after(end, running)
        }),
    decreases events.len(),
{
    if events.len() > 0 {
        a_session_s_own_end_is_acted_on(before, events.drop_last(), end);
    }
}

/// The menu bar's recording mark follows the tracked session: it is set exactly
/// to what is tracked after the event, and left alone where that did not change
/// with an applied event.
pub proof fn the_recording_mark_follows_the_session(event: DictationEventView, session_active: bool)
    ensures
        match reaction_to(event, session_active).recording {
            Some(on) => on == active_after(event, session_active),
            None => active_after(event, session_active) == session_active,
        },
{
}

/// How many events of a row say that access to the microphone was refused.
pub open spec fn microphone_refusals(events: Seq<DictationEventView>) -> nat
    decreases events.len(),
{
    if events.len() == 0 {
        0
    } else {
        microphone_refusals(events.drop_last()) + if is_microphone_refusal(events.last()) {
            1nat
        } else {
            0
        }
    }
}

/// Each event of a batch is handed over with what it asks for, after the events
/// before it.
pub proof fn every_event_is_handed_over<W, E: Fn(W, &DictationEvent, Reaction) -> W>(
    perform: E,
    before: W,
    events: Seq<DictationEvent>,
    session_active: bool,
    after: W,
    i: int,
)
    requires
        performed(perform, before, events, session_active, after),
        0 <= i < events.len(),
    ensures
        exists|reached: W, next: W| #[trigger]
            performs(
                perform,
                reached,
                events[i],
                reaction_to(
                    events[i]@,
                    active_after_all(event_views(events).take(i), session_active),
                ),
                next,
            ) && performed(perform, before, events.take(i), session_active, reached),
    decreases events.len(),
{
    let earlier = events.drop_last();
    let running = active_after_all(event_views(earlier), session_active);
    let between = choose|between: W| #[trigger]
        performs(perform, between, events.last(), reaction_to(events.last()@, running), after)
            && performed(perform, before, earlier, session_active, between);
    assert(event_views(events).take(i) =~= event_views(events.take(i)));
    if i == earlier.len() {
        assert(events.take(i) =~= earlier);
    } else {
        every_event_is_handed_over(perform, before, earlier, session_active, between, i);
        assert(event_views(earlier).take(i) =~= event_views(events).take(i));
        assert(earlier.take(i) =~= events.take(i));
    }
}

/// The user is asked for access to the microphone once for each error of a batch
/// that says it was refused, and never else: whatever counts the askings counts
/// those errors.
pub proof fn the_microphone_is_asked_for_once_per_refusal<
    E: Fn(u64, &DictationEvent, Reaction) -> u64,
>(perform: E, before: u64, events: Seq<DictationEvent>, session_active: bool, after: u64)
    requires
        forall|asked: u64, event: DictationEvent, reaction: Reaction, next: u64| #[trigger]
            performs(perform, asked, event, reaction, next) ==> next == asked
                + if reaction.prompt_microphone {
                1int
            } else {
                0
            },
        performed(perform, before, events, session_active, after),
    ensures
        after == before + microphone_refusals(event_views(events)),
    decreases events.len(),
{
    if events.len() > 0 {
        let earlier = events.drop_last();
        let running = active_after_all(event_views(earlier), session_active);
        let between = choose|between: u64| #[trigger]
            performs(perform, between, events.last(), reaction_to(events.last()@, running), after)
                && performed(perform, before, earlier, session_active, between);
        the_microphone_is_asked_for_once_per_refusal(
            perform,
            before,
            earlier,
            session_active,
            between,
        );
        assert(event_views(events).drop_last() =~= event_views(earlier));
    }
}

/// A recording mark that agreed with the tracked session before a batch, and is
/// set as each event asks, agrees with it after the batch.
pub proof fn the_recording_mark_agrees_after_a_batch<
    E: Fn(bool, &DictationEvent, Reaction) -> bool,
>(perform: E, events: Seq<DictationEvent>, session_active: bool, after: bool)
    requires
        forall|mark: bool, event: DictationEvent, reaction: Reaction, next: bool| #[trigger]
            performs(perform, mark, event, reaction, next) ==> next == match reaction.recording {
                Some(on) => on,
                None => mark,
            },
        performed(perform, session_active, events, session_active, after),
    ensures
        after == active_after_all(event_views(events), session_active),
    decreases events.len(),
{
    if events.len() > 0 {
        let earlier = events.drop_last();
        let running = active_after_all(event_views(earlier), session_active);
        let between = choose|between: bool| #[trigger]
            performs(perform, between, events.last(), reaction_to(events.last()@, running), after)
                && performed(perform, session_active, earlier, session_active, between);
        the_recording_mark_agrees_after_a_batch(perform, earlier, session_active, between);
        assert(event_views(events).drop_last() =~= event_views(earlier));
    }
}

/// However many events pass, and whenever they arrive, the window never goes away
/// under a live session.
pub proof fn the_window_never_goes_under_a_live_session(
    tracker: Tracker,
    events: Seq<DictationEventView>,
    times: Seq<u64>,
)
    requires
        tracker.wf(),
        times.len() == events.len(),
    ensures
        tracker_after_all(tracker, events, times).session_active ==> tracker_after_all(
            tracker,
            events,
            times,
        ).hide_at is None,
        tracker_after_all(tracker, events, times).session_active == active_after_all(
            events,
            tracker.session_active,
        ),
    decreases events.len(),
{
    if events.len() > 0 {
        the_window_never_goes_under_a_live_session(tracker, events.drop_last(), times.drop_last());
    }
}

/// An event that is not acted on changes nothing: not what is tracked, not the
/// deadline, not the window.
pub proof fn a_stale_event_changes_nothing(tracker: Tracker, event: DictationEventView, now: u64)
    requires
        !is_applied(event, tracker.session_active),
    ensures
        tracker_after(tracker, event, now) == tracker,
        reaction_to(event, tracker.session_active) == (Reaction {
            applied: false,
            show: false,
            recording: None,
            prompt_microphone: false,
        }),
{
}

/// What the window shows is cleared no later than the window itself goes away.
pub proof fn the_outcome_is_cleared_before_the_window_goes(
    model: OverlayView,
    event: DictationEventView,
    tracker: Tracker,
    shown_at: u64,
    now: u64,
)
    requires
        event is SessionCompleted || event is Error,
        is_applied(event, tracker.session_active),
        shown_at <= now + 100_000_000,
        now <= u64::MAX - LONGEST_HIDE_NS,
    ensures
        tracker_after(tracker, event, now).hide_at matches Some(t) ==> after_expiry(
            after_event(model, event, shown_at),
            t,
        ).outcome is None,
        tracker_after(tracker, event, now).hide_at is None ==> forall|later: u64|
            (#[trigger] after_expiry(after_event(model, event, shown_at), later)).outcome is Some,
{
}

/// An event is not acted on only if it is the end of a session and no session is
/// tracked: every start, every word, every sign of activity and every error is
/// acted on, whatever is tracked, and so is the end of the tracked session.
pub proof fn only_an_end_without_a_session_is_ignored(
    event: DictationEventView,
    session_active: bool,
)
    ensures
        is_applied(event, session_active) == !(event is SessionCompleted && !session_active),
        reaction_to(event, session_active).applied == !(event is SessionCompleted
            && !session_active),
{
}

/// Of a batch, the overlay takes in every event but the ends of sessions that are
/// not tracked when their turn comes.
pub proof fn the_overlay_misses_only_stale_ends(
    events: Seq<DictationEventView>,
    session_active: bool,
    i: int,
)
    requires
        0 <= i < events.len(),
    ensures
        applied_among(events, session_active).len() == events.len(),
        !(events[i] is SessionCompleted) ==> applied_among(events, session_active)[i],
        events[i] is SessionCompleted ==> applied_among(events, session_active)[i]
            == active_after_all(events.take(i), session_active),
{
}

/// A session is tracked from its start until it ends or meets an error, and by
/// nothing else: of the events that start, end or break a session, the last one
/// decides.
pub proof fn the_last_start_or_end_decides(
    events: Seq<DictationEventView>,
    session_active: bool,
    i: int,
)
    requires
        -1 <= i < events.len(),
        forall|j: int|
            i < j < events.len() ==> (#[trigger] events[j]) is PartialTranscript
                || events[j] is Activity,
    ensures
        i == -1 ==> active_after_all(events, session_active) == session_active,
        i >= 0 && events[i] is SessionStarted ==> active_after_all(events, session_active),
        i >= 0 && (events[i] is SessionCompleted || events[i] is Error) ==> !active_after_all(
            events,
            session_active,
        ),
    decreases events.len(),
{
    if events.len() > 0 && i < events.len() - 1 {
        let earlier = events.drop_last();
        assert forall|j: int| i < j < earlier.len() implies (#[trigger] earlier[j]) is PartialTranscript
            || earlier[j] is Activity by {
            assert(earlier[j] == events[j]);
        }
        the_last_start_or_end_decides(earlier, session_active, i);
        assert(events.last() == events[events.len() - 1]);
    }
}

/// What each event asks for: a start and an error bring the window up; a start
/// sets the recording mark, an error and the end of the tracked session take it
/// away, and nothing else touches it; only an error that says that the microphone
/// was refused asks for it.
pub proof fn what_an_event_asks_for(event: DictationEventView, session_active: bool)
    ensures
        reaction_to(event, session_active).show == (event is SessionStarted || event is Error),
        reaction_to(event, session_active).recording == Some(true) <==> event is SessionStarted,
        reaction_to(event, session_active).recording == Some(false) <==> (event is Error || event
            is SessionCompleted && session_active),
        reaction_to(event, session_active).prompt_microphone ==> event is Error,
        event matches DictationEventView::Error { kind, .. } ==> reaction_to(
            event,
            session_active,
        ).prompt_microphone == (kind == ErrorKind::MicPermissionDenied),
{
}

/// When the window goes away: a start calls it off; the end of the tracked session
/// sets it by what became of the text, to 1.9, 3.1 or 0.9 seconds later, or to
/// never where the text was lost; a recoverable error sets it 0.9 seconds later,
/// and one that is not to never; nothing else touches it.
pub proof fn when_the_window_goes_away(tracker: Tracker, event: DictationEventView, now: u64)
    requires
        now <= u64::MAX - 3_100_000_000,
    ensures
        ({
            let before = tracker.hide_at;
            let after = tracker_after(tracker, event, now).hide_at;
            match event {
                DictationEventView::SessionStarted => after is None,
                DictationEventView::PartialTranscript { .. } => after == before,
                DictationEventView::Activity => after == before,
                DictationEventView::SessionCompleted { injection, .. } => {
                    &&& !tracker.session_active ==> after == before
                    &&& tracker.session_active && injection is Failed ==> after is None
                    &&& tracker.session_active && injection is Inserted ==> (after matches Some(t)
                        && t - now == 1_900_000_000)
                    &&& tracker.session_active && injection is ClipboardOnly ==> (after matches Some(t)
                        && t - now == 3_100_000_000)
                    &&& tracker.session_active && injection is NothingToInject ==> (
                    after matches Some(t) && t - now == 900_000_000)
                },
                DictationEventView::Error { recoverable, .. } => {
                    &&& recoverable ==> (after matches Some(t) && t - now == 900_000_000)
                    &&& !recoverable ==> after is None
                },
            }
        }),
        tracker_after(tracker, event, now).session_active == (event is SessionStarted || !(event
            is SessionCompleted) && !(event is Error) && tracker.session_active),
{
}

/// What is kept after a batch is what is kept after its events one by one, in
/// order, each at its own time.
pub proof fn a_batch_is_noted_event_by_event(
    tracker: Tracker,
    events: Seq<DictationEventView>,
    times: Seq<u64>,
    event: DictationEventView,
    now: u64,
)
    ensures
        tracker_after_all(tracker, Seq::empty(), Seq::empty()) == tracker,
        tracker_after_all(tracker, events.push(event), times.push(now)) == tracker_after(
            tracker_after_all(tracker, events, times),
            event,
            now,
        ),
        active_after_all(Seq::empty(), tracker.session_active) == tracker.session_active,
        active_after_all(events.push(event), tracker.session_active) == active_after(
            event,
            active_after_all(events, tracker.session_active),
        ),
{
    assert(events.push(event).drop_last() =~= events);
    assert(times.push(now).drop_last() =~= times);
}

/// A batch brings the window up exactly if one of its events does: a start or an
/// error, wherever in the batch it stands.
pub proof fn one_event_is_enough_to_bring_the_window_up(
    earlier: Seq<DictationEventView>,
    event: DictationEventView,
    later: Seq<DictationEventView>,
)
    ensures
        !shows_window(Seq::empty()),
        event is SessionStarted || event is Error ==> shows_window(earlier + seq![event] + later),
        !(event is SessionStarted) && !(event is Error) ==> shows_window(
            earlier + seq![event] + later,
        ) == shows_window(earlier + later),
{
    let with = earlier + seq![event] + later;
    let without = earlier + later;
    assert(with[earlier.len() as int] == event);
    if shows_window(without) {
        let i = choose|i: int|
            0 <= i < without.len() && ((#[trigger] without[i]) is SessionStarted
                || without[i] is Error);
        let k = if i < earlier.len() {
            i
        } else {
            i + 1
        };
        assert(with[k] == without[i]);
    }
    if shows_window(with) && !(event is SessionStarted) && !(event is Error) {
        let i = choose|i: int|
            0 <= i < with.len() && ((#[trigger] with[i]) is SessionStarted || with[i] is Error);
        let k = if i < earlier.len() {
            i
        } else {
            i - 1
        };
        assert(without[k] == with[i]);
    }
}

/// The overlay takes in the events of a batch that are acted on one by one, in
/// order, and skips the others.
pub proof fn a_batch_reaches_the_overlay_event_by_event(
    model: OverlayView,
    events: Seq<DictationEvent>,
    applied: Seq<bool>,
    event: DictationEvent,
    acted_on: bool,
    now: u64,
)
    ensures
        after_batch(model, Seq::empty(), Seq::empty(), now) == model,
        after_batch(model, events.push(event), applied.push(acted_on), now) == if acted_on {
            after_event(after_batch(model, events, applied, now), event@, now)
        } else {
            after_batch(model, events, applied, now)
        },
{
    assert(events.push(event).drop_last() =~= events);
    assert(applied.push(acted_on).drop_last() =~= applied);
}

/// The words of a batch's last partial transcript are on screen after the batch,
/// where nothing but activity follows it.
pub proof fn the_last_words_of_a_batch_are_on_screen(
    model: OverlayView,
    events: Seq<DictationEvent>,
    session_active: bool,
    i: int,
    now: u64,
)
    requires
        0 <= i < events.len(),
        events[i]@ is PartialTranscript,
        forall|j: int| i < j < events.len() ==> (#[trigger] events[j])@ is Activity,
    ensures
        ({
            let after = after_batch(
                model,
                events,
                applied_among(event_views(events), session_active),
                now,
            );
            &&& after.confirmed_text == events[i]@->confirmed_text
            &&& after.unconfirmed_text == events[i]@->unconfirmed_text
        }),
    decreases events.len(),
{
    let earlier = events.drop_last();
    let applied = applied_among(event_views(events), session_active);
    assert(applied.last());
    assert forall|j: int| 0 <= j < earlier.len() implies event_views(earlier)[j] == event_views(
        events,
    )[j] by {}
    assert(applied.drop_last() =~= applied_among(event_views(earlier), session_active)) by {
        assert forall|j: int| 0 <= j < earlier.len() implies applied.drop_last()[j]
            == applied_among(event_views(earlier), session_active)[j] by {
            assert(event_views(earlier).take(j) =~= event_views(events).take(j));
        }
    }
    if i < events.len() - 1 {
        assert(events.last()@ is Activity);
        the_last_words_of_a_batch_are_on_screen(model, earlier, session_active, i, now);
    }
}

/// Whether the window goes away at `now`.
pub open spec fn is_due(tracker: Tracker, now: u64) -> bool {
    tracker.hide_at matches Some(t) && now >= t
}

/// The window goes away at its deadline and not before, whenever it is asked, and
/// never without one.
pub proof fn the_deadline_is_kept(session_active: bool, deadline: u64, now: u64)
    ensures
        is_due(Tracker { hide_at: Some(deadline), session_active }, now) == (now >= deadline),
        !is_due(Tracker { hide_at: None, session_active }, now),
{
}

/// The views of events keep them one for one, in order.
pub proof fn views_of_events_keep_their_order(events: Seq<DictationEvent>, i: int)
    requires
        0 <= i < events.len(),
    ensures
        event_views(events).len() == events.len(),
        event_views(events)[i] == events[i]@,
{
}

} // verus!
