//! The provisioning loop, one message at a time.
//!
//! The loop's owner waits on four channels and hands each message to the
//! matching method of [`Provisioner`], which answers with the loop's next state
//! and with what is left to do about it ([`Turn`]).

use vstd::prelude::*;

use crate::domain::{
    model_views, DictationEvent, LockedModel, Manifest, ModelAvailability, ModelStatus,
    ModelStatusView, ProvisionCommand, UiCommand, UiCommandView,
};
use crate::provisioning::{
    broadcast_of, broadcast_phase, command_views, failed_download, on_dictation_command,
    on_download_completed, on_download_progress, on_provision_command, progressed,
    provision_allowed, provision_leads_to, reload_allowed, reload_leads_to, rows_of, selected_of,
    status_of_phase, DownloadOutcome, Phase, PhaseView, ProvisionOutcome, ProvisionStep,
};

verus! {

/// The state of the provisioning loop. `S` is a live session; `D` and `P` are
/// what a running download reports its end and its progress through.
#[derive(Debug)]
pub struct Provisioner<S, D, P> {
    pub phase: Phase<S>,
    /// The models as last read from disk.
    pub models: Vec<ModelAvailability>,
    /// Where the end of the running download arrives.
    pub done: Option<D>,
    /// Where the progress of the running download arrives.
    pub progress: Option<P>,
    /// Whether dictation commands can still arrive.
    pub commands_open: bool,
    /// Whether provisioning commands can still arrive.
    pub provisions_open: bool,
}

/// What one message leads to: the loop's next state, and what its owner does
/// about it.
#[derive(Debug)]
pub struct Turn<S, D, P, C> {
    pub next: Provisioner<S, D, P>,
    /// Hand this to the live session.
    pub forward: Option<C>,
    /// Send this to the overlay.
    pub event: Option<DictationEvent>,
    /// Send these to the main thread.
    pub broadcast: Vec<UiCommand>,
    /// Once they are sent, drop the dictation commands that are waiting: they came
    /// in while the engine was loading.
    pub drain_after_telling: bool,
}

/// What the loop takes a turn on.
pub ghost enum Message {
    /// The loop is entered.
    Begin,
    /// A dictation command.
    Command,
    /// A command of the settings tab, refused or not.
    Provision,
    /// A progress tick of the running download.
    Progress,
    /// The end of the running download, reported or not.
    Done,
    /// No dictation command will arrive any more.
    CommandsClosed,
    /// No command of the settings tab will arrive any more.
    ProvisionsClosed,
    /// No progress tick of the running download will arrive any more.
    ProgressClosed,
}

impl Message {
    /// Whether a phase is entered on this message, be it the one that was there
    /// before.
    pub open spec fn enters_a_phase(self) -> bool {
        self is Begin || self is Provision || self is Progress || self is Done
    }
}

impl<S, D, P> Provisioner<S, D, P> {
    /// The end of a download is listened for only while the phase says that one is
    /// in flight, and its progress at most as long.
    pub open spec fn wf(&self) -> bool {
        &&& self.done is Some ==> self.phase is Downloading
        &&& self.progress is Some ==> self.done is Some
    }

    /// Whether the loop is over: nobody is left who could send a command.
    pub fn is_over(&self) -> (r: bool)
        ensures
            r == nobody_is_left(*self),
            r == (!self.commands_open && !self.provisions_open),
    {
        !self.commands_open && !self.provisions_open
    }

    /// The commands that tell the UI about this state.
    pub open spec fn announces(&self, commands: Seq<UiCommand>) -> bool {
        command_views(commands) == broadcast_of(self.phase@, model_views(self.models@))
    }

    /// Enter the loop: tell the UI about the initial phase, and drop what was
    /// pressed while it was worked out.
    pub fn start<C>(initial: Phase<S>, models: Vec<ModelAvailability>) -> (r: Turn<S, D, P, C>)
        ensures
            r.next.wf(),
            r.next.phase == initial,
            r.next.models == models,
            r.next.done is None && r.next.progress is None,
            r.next.commands_open && r.next.provisions_open,
            r.answers(Message::Begin),
            r.drain_after_telling,
            r.forward is None && r.event is None,
    {
        let broadcast = broadcast_phase(&initial, &models);
        Turn {
            next: Provisioner {
                phase: initial,
                models,
                done: None,
                progress: None,
                commands_open: true,
                provisions_open: true,
            },
            forward: None,
            event: None,
            broadcast,
            drain_after_telling: true,
        }
    }

    /// A dictation command, or `None` once none can arrive any more. It reaches
    /// the session of a ready phase and is dropped otherwise. The phase does not
    /// change, so there is nothing to tell the UI.
    pub fn on_command<C>(self, message: Option<C>) -> (r: Turn<S, D, P, C>)
        requires
            self.wf(),
        ensures
            command_leads_to(self, message, r),
            r.next.wf(),
            r.next == (Provisioner {
                commands_open: self.commands_open && message is Some,
                ..self
            }),
            r.keeps_the_ui_current(self),
            r.answers(
                if message is Some {
                    Message::Command
                } else {
                    Message::CommandsClosed
                },
            ),
            r.forward == if self.phase is Ready {
                message
            } else {
                None
            },
            r.event is None && !r.drain_after_telling,
    {
        let Provisioner { phase, models, done, progress, commands_open, provisions_open } = self;
        let (phase, forward, commands_open) = match message {
            Some(command) => {
                let (same, forward) = on_dictation_command(phase, command);
                (same, forward, commands_open)
            },
            None => (phase, None, false),
        };
        Turn {
            next: Provisioner { phase, models, done, progress, commands_open, provisions_open },
            forward,
            event: None,
            broadcast: Vec::new(),
            drain_after_telling: false,
        }
    }

    /// A command of the settings tab, or `None` once none can arrive any more.
    /// The models are read from disk again with `reread`, and the UI is told
    /// about the outcome. Where the engine was loaded for it, the dictation commands
    /// that came in meanwhile are dropped with `drop_stale` after the load and
    /// before the models are read: one that comes in later is not stale.
    /// `drop_stale` is handed the phase that the load ended in. `outside` is what
    /// the two act on; it is passed from one to the other.
    pub fn on_provision<
        C,
        W,
        A: FnOnce(&str) -> ModelAvailability,
        F: FnOnce(&str) -> (D, P),
        X: FnOnce(&str) -> Result<(), String>,
        K: FnOnce(&str) -> Option<String>,
        L: FnOnce() -> Option<S>,
        Q: FnOnce(W, &Phase<S>) -> W,
        V: FnOnce(W) -> (Vec<ModelAvailability>, W),
    >(
        self,
        message: Option<ProvisionCommand>,
        persisted: &Option<String>,
        manifest: &Manifest,
        lock: &Vec<LockedModel>,
        lookup: A,
        spawn: F,
        remove: X,
        persist: K,
        load: L,
        outside: W,
        drop_stale: Q,
        reread: V,
    ) -> (r: (Turn<S, D, P, C>, W))
        requires
            self.wf(),
            forall|at: W, phase: &Phase<S>| #[trigger] drop_stale.requires((at, phase)),
            forall|at: W| #[trigger] reread.requires((at,)),
            message matches Some(command) ==> provision_allowed::<
                S,
                (D, P),
                A,
                F,
                X,
                K,
                L,
            >(
                self.phase@,
                command@,
                selected_of(*persisted, *manifest),
                *manifest,
                lookup,
                spawn,
                remove,
                persist,
                load,
            ),
        ensures
            r.0.next.wf(),
            r.0.keeps_the_ui_current(self),
            r.0.answers(
                if message is Some {
                    Message::Provision
                } else {
                    Message::ProvisionsClosed
                },
            ),
            r.0.forward is None,
            !r.0.drain_after_telling,
            match message {
                None => {
                    &&& r.0.next == (Provisioner { provisions_open: false, ..self })
                    &&& r.0.event is None
                    &&& r.1 == outside
                },
                Some(command) => exists|step: ProvisionStep<S, (D, P)>|
                    {
                        &&& #[trigger] provision_leads_to(
                            self.phase,
                            command@,
                            selected_of(*persisted, *manifest),
                            *manifest,
                            lock@,
                            lookup,
                            spawn,
                            remove,
                            persist,
                            load,
                            step,
                        )
                        &&& r.0.next.phase == step.phase
                        &&& channels_follow(self, step.outcome, r.0.next)
                        &&& refresh_leads_to(
                            outside,
                            step.outcome is ReloadedBlocking,
                            drop_stale,
                            step.phase,
                            reread,
                            r.0.next.models,
                            r.1,
                        )
                        &&& match step.outcome {
                            ProvisionOutcome::DownloadStarted(receivers) => r.0.next.done == Some(
                                receivers.0,
                            ) && r.0.next.progress == Some(receivers.1),
                            _ => r.0.next.done == self.done && r.0.next.progress == self.progress,
                        }
                        &&& r.0.next.commands_open == self.commands_open
                        &&& r.0.next.provisions_open == self.provisions_open
                        &&& r.0.event == step.event
                    },
            },
    {
        let Provisioner { phase, models, done, progress, commands_open, provisions_open } = self;
        match message {
            None => {
                let turn = Turn {
                    next: Provisioner {
                        phase,
                        models,
                        done,
                        progress,
                        commands_open,
                        provisions_open: false,
                    },
                    forward: None,
                    event: None,
                    broadcast: Vec::new(),
                    drain_after_telling: false,
                };
                (turn, outside)
            },
            Some(command) => {
                let step = on_provision_command(
                    phase,
                    command,
                    persisted,
                    manifest,
                    lock,
                    lookup,
                    spawn,
                    remove,
                    persist,
                    load,
                );
                let ProvisionStep { phase, outcome, setting: _, event } = step;
                let (done, progress, at) = match outcome {
                    ProvisionOutcome::DownloadStarted(receivers) => {
                        (Some(receivers.0), Some(receivers.1), outside)
                    },
                    ProvisionOutcome::ReloadedBlocking => {
                        (done, progress, drop_stale(outside, &phase))
                    },
                    ProvisionOutcome::Handled => (done, progress, outside),
                };
                let (models, after) = reread(at);
                let broadcast = broadcast_phase(&phase, &models);
                let turn = Turn {
                    next: Provisioner {
                        phase,
                        models,
                        done,
                        progress,
                        commands_open,
                        provisions_open,
                    },
                    forward: None,
                    event,
                    broadcast,
                    drain_after_telling: false,
                };
                (turn, after)
            },
        }
    }

    /// A progress tick of the running download, or `None` once no more will
    /// come; the download's end still arrives on its own. A tick moves bytes
    /// only where a look at the disk does not find them, so the models are not
    /// read again.
    pub fn on_progress<C>(self, message: Option<ModelStatus>) -> (r: Turn<S, D, P, C>)
        requires
            self.wf(),
        ensures
            progress_leads_to(self, message, r),
            r.next.wf(),
            r.keeps_the_ui_current(self),
            r.answers(
                if message is Some {
                    Message::Progress
                } else {
                    Message::ProgressClosed
                },
            ),
            r.next.models == self.models,
            r.next.done == self.done,
            r.next.commands_open == self.commands_open,
            r.next.provisions_open == self.provisions_open,
            match message {
                Some(status) => {
                    &&& r.next.phase@ == progressed(self.phase@, status@)
                    &&& r.next.progress == self.progress
                },
                None => {
                    &&& r.next.phase == self.phase
                    &&& r.next.progress is None
                },
            },
            r.forward is None && r.event is None && !r.drain_after_telling,
    {
        let Provisioner { phase, models, done, progress, commands_open, provisions_open } = self;
        let (phase, progress, broadcast) = match message {
            Some(status) => {
                let phase = on_download_progress(phase, status);
                let broadcast = broadcast_phase(&phase, &models);
                (phase, progress, broadcast)
            },
            None => (phase, None, Vec::new()),
        };
        Turn {
            next: Provisioner { phase, models, done, progress, commands_open, provisions_open },
            forward: None,
            event: None,
            broadcast,
            drain_after_telling: false,
        }
    }

    /// The end of the running download, or `None` where its thread died without
    /// reporting one, which counts as a failure. Neither of the download's
    /// channels is listened to any more, so no progress tick that is still
    /// waiting can outlive the end.
    pub fn on_done<
        C,
        A: FnOnce(&str) -> ModelAvailability,
        L: FnOnce() -> Option<S>,
        V: FnOnce() -> Vec<ModelAvailability>,
    >(
        self,
        message: Option<DownloadOutcome>,
        persisted: &Option<String>,
        manifest: &Manifest,
        lookup: A,
        load: L,
        reread: V,
    ) -> (r: Turn<S, D, P, C>)
        requires
            self.wf(),
            reread.requires(()),
            self.phase is Downloading && message == Some(DownloadOutcome::Finished)
                ==> reload_allowed::<S, A, L>(selected_of(*persisted, *manifest), lookup, load),
        ensures
            done_leads_to(self, r),
            r.next.wf(),
            r.keeps_the_ui_current(self),
            r.answers(Message::Done),
            r.next.done is None && r.next.progress is None,
            r.next.commands_open == self.commands_open,
            r.next.provisions_open == self.provisions_open,
            reread.ensures((), r.next.models),
            !(r.next.phase is Downloading),
            match (self.phase@, message) {
                (PhaseView::Downloading { .. }, Some(DownloadOutcome::Finished)) => reload_leads_to(
                    selected_of(*persisted, *manifest),
                    *manifest,
                    lookup,
                    load,
                    r.next.phase@,
                ),
                (PhaseView::Downloading { id, .. }, _) => r.next.phase@ == failed_download::<S>(
                    id,
                    failure_text(message),
                ),
                _ => r.next.phase == self.phase,
            },
            r.drain_after_telling == r.next.phase is Ready,
            r.forward is None && r.event is None,
    {
        let Provisioner { phase, models: _, done: _, progress: _, commands_open, provisions_open } =
            self;
        let outcome = match message {
            Some(outcome) => outcome,
            None => DownloadOutcome::Failed(
                "the download stopped unexpectedly — please try again".to_owned(),
            ),
        };
        let phase = on_download_completed(phase, outcome, persisted, manifest, lookup, load);
        let models = reread();
        let broadcast = broadcast_phase(&phase, &models);
        let drain_after_telling = match &phase {
            Phase::Ready(_) => true,
            _ => false,
        };
        Turn {
            next: Provisioner {
                phase,
                models,
                done: None,
                progress: None,
                commands_open,
                provisions_open,
            },
            forward: None,
            event: None,
            broadcast,
            drain_after_telling,
        }
    }
}

/// Whether `reread` can find these models, and lead from `before` to `after`.
pub open spec fn rereads<W, V: FnOnce(W) -> (Vec<ModelAvailability>, W)>(
    reread: V,
    before: W,
    models: Vec<ModelAvailability>,
    after: W,
) -> bool {
    reread.ensures((before,), (models, after))
}

/// Whether reading the models again finds these, and leads from `before` to
/// `after`; where `stale`, only after the waiting commands were dropped.
pub open spec fn refresh_leads_to<
    S,
    W,
    Q: FnOnce(W, &Phase<S>) -> W,
    V: FnOnce(W) -> (Vec<ModelAvailability>, W),
>(
    before: W,
    stale: bool,
    drop_stale: Q,
    phase: Phase<S>,
    reread: V,
    models: Vec<ModelAvailability>,
    after: W,
) -> bool {
    if stale {
        exists|at: W| #[trigger]
            drop_stale.ensures((before, &phase), at) && rereads(reread, at, models, after)
    } else {
        rereads(reread, before, models, after)
    }
}

/// What is said of a download that did not finish.
pub open spec fn failure_text(message: Option<DownloadOutcome>) -> Seq<char> {
    match message {
        Some(DownloadOutcome::Failed(text)) => text@,
        _ => "the download stopped unexpectedly — please try again"@,
    }
}

impl<S, D, P, C> Turn<S, D, P, C> {
    /// Whether the UI is told what it has to be told on this message: about the
    /// phase that is entered, where one is, and nothing otherwise.
    pub open spec fn answers(&self, message: Message) -> bool {
        if message.enters_a_phase() {
            self.next.announces(self.broadcast@)
        } else {
            self.broadcast@.len() == 0
        }
    }

    /// Whether the UI is told of this turn if there is anything to tell: either
    /// the turn announces the loop's new state, or it left the phase as it was.
    pub open spec fn keeps_the_ui_current(&self, before: Provisioner<S, D, P>) -> bool {
        ||| self.next.announces(self.broadcast@)
        ||| self.broadcast@.len() == 0 && self.next.phase == before.phase
    }
}

/// Everything that the turns told the UI, in order.
pub open spec fn broadcasts<S, D, P, C>(turns: Seq<Turn<S, D, P, C>>) -> Seq<UiCommandView>
    decreases turns.len(),
{
    if turns.len() == 0 {
        Seq::empty()
    } else {
        broadcasts(turns.drop_last()) + command_views(turns.last().broadcast@)
    }
}

/// The states in which the turns entered a phase, in order.
pub open spec fn entered<S, D, P, C>(
    turns: Seq<Turn<S, D, P, C>>,
    messages: Seq<Message>,
) -> Seq<Provisioner<S, D, P>>
    decreases turns.len(),
{
    if turns.len() == 0 {
        Seq::empty()
    } else {
        let earlier = entered(turns.drop_last(), messages.drop_last());
        if messages.last().enters_a_phase() {
            earlier.push(turns.last().next)
        } else {
            earlier
        }
    }
}

/// However long the loop runs and whatever it is sent, the UI is told of each
/// phase that is entered, in order, and of nothing else: first the model status
/// that the phase implies, and at once after it the rows of the models. That is
/// once on entering the loop, and once for each command of the settings tab,
/// progress tick and end of a download; a dictation command leads to nothing.
pub proof fn each_phase_is_told_as_a_status_and_its_rows<S, D, P, C>(
    turns: Seq<Turn<S, D, P, C>>,
    messages: Seq<Message>,
)
    requires
        messages.len() == turns.len(),
        forall|i: int| 0 <= i < turns.len() ==> (#[trigger] turns[i]).answers(messages[i]),
    ensures
        broadcasts(turns).len() == 2 * entered(turns, messages).len(),
        forall|k: int|
            0 <= k < entered(turns, messages).len() ==> {
                let state = #[trigger] entered(turns, messages)[k];
                &&& broadcasts(turns)[2 * k] == UiCommandView::ModelStatus(
                    status_of_phase(state.phase@),
                )
                &&& broadcasts(turns)[2 * k + 1] == UiCommandView::ModelList(
                    rows_of(state.phase@, model_views(state.models@)),
                )
            },
    decreases turns.len(),
{
    if turns.len() > 0 {
        let earlier = turns.drop_last();
        let heard = messages.drop_last();
        assert forall|i: int| 0 <= i < earlier.len() implies (#[trigger] earlier[i]).answers(
            heard[i],
        ) by {
            assert(turns[i].answers(messages[i]));
        }
        each_phase_is_told_as_a_status_and_its_rows(earlier, heard);
        let last = turns.last();
        assert(last.answers(messages.last()));
        let told = command_views(last.broadcast@);
        let before = broadcasts(earlier);
        assert(broadcasts(turns) == before + told);
        assert forall|k: int| 0 <= k < entered(turns, messages).len() implies {
            let state = #[trigger] entered(turns, messages)[k];
            &&& broadcasts(turns)[2 * k] == UiCommandView::ModelStatus(
                status_of_phase(state.phase@),
            )
            &&& broadcasts(turns)[2 * k + 1] == UiCommandView::ModelList(
                rows_of(state.phase@, model_views(state.models@)),
            )
        } by {
            if k < entered(earlier, heard).len() {
                assert(entered(turns, messages)[k] == entered(earlier, heard)[k]);
            }
        }
    }
}

/// The model status that the UI was told last.
pub open spec fn shown_status(commands: Seq<UiCommandView>) -> Option<ModelStatusView>
    decreases commands.len(),
{
    if commands.len() == 0 {
        None
    } else {
        match commands.last() {
            UiCommandView::ModelStatus(status) => Some(status),
            _ => shown_status(commands.drop_last()),
        }
    }
}

/// However long the loop runs and whatever it is sent, the model status that the
/// UI was told last is the one that the current phase implies.
pub proof fn the_ui_always_shows_the_current_phase<S, D, P, C>(turns: Seq<Turn<S, D, P, C>>)
    requires
        turns.len() > 0,
        turns[0].next.announces(turns[0].broadcast@),
        forall|i: int|
            0 < i < turns.len() ==> (#[trigger] turns[i]).keeps_the_ui_current(turns[i - 1].next),
    ensures
        shown_status(broadcasts(turns)) == Some(status_of_phase(turns.last().next.phase@)),
    decreases turns.len(),
{
    let earlier = turns.drop_last();
    let last = turns.last();
    let before = broadcasts(earlier);
    let told = command_views(last.broadcast@);
    if last.next.announces(last.broadcast@) {
        let all = before + told;
        reveal_with_fuel(shown_status, 3);
    } else {
        the_ui_always_shows_the_current_phase(earlier);
    }
}

/// A phase is entered on everything but dictation commands and the end of a
/// channel of commands or ticks, and only then is the UI told anything.
pub proof fn only_dictation_and_closed_channels_enter_no_phase<S, D, P, C>(
    turn: Turn<S, D, P, C>,
    message: Message,
)
    requires
        turn.answers(message),
    ensures
        match message {
            Message::Begin => turn.broadcast@.len() == 2,
            Message::Provision => turn.broadcast@.len() == 2,
            Message::Progress => turn.broadcast@.len() == 2,
            Message::Done => turn.broadcast@.len() == 2,
            _ => turn.broadcast@.len() == 0,
        },
        message is Begin || message is Provision || message is Progress || message is Done ==> (
        turn.broadcast@[0] matches UiCommand::ModelStatus(told) && told@ == match turn.next.phase@ {
            PhaseView::NeedsModel { status, .. } => status,
            PhaseView::Downloading { status, .. } => status,
            PhaseView::EngineFailed(reason) => ModelStatusView::Failed { message: reason },
            PhaseView::Ready(_) => ModelStatusView::Ready,
        }),
{
    let told = command_views(turn.broadcast@);
    if message.enters_a_phase() {
        assert(told.len() == 2);
        assert(told[0] == turn.broadcast@[0]@);
    }
}

/// A download that failed is reported in its own words, and one whose thread died
/// in words of the loop's.
pub proof fn a_failure_is_reported_in_its_own_words(text: String)
    ensures
        failure_text(Some(DownloadOutcome::Failed(text))) == text@,
        failure_text(None) == "the download stopped unexpectedly — please try again"@,
{
}

/// Where commands are stale they are dropped before the models are read again, and
/// nowhere else.
pub proof fn stale_commands_go_before_the_models_are_read<
    S,
    W,
    Q: FnOnce(W, &Phase<S>) -> W,
    V: FnOnce(W) -> (Vec<ModelAvailability>, W),
>(
    before: W,
    stale: bool,
    drop_stale: Q,
    phase: Phase<S>,
    reread: V,
    models: Vec<ModelAvailability>,
    after: W,
)
    requires
        refresh_leads_to(before, stale, drop_stale, phase, reread, models, after),
    ensures
        stale ==> exists|at: W| #[trigger]
            drop_stale.ensures((before, &phase), at) && reread.ensures((at,), (models, after)),
        !stale ==> reread.ensures((before,), (models, after)),
{
}

/// Whether a turn is the one that a dictation command leads to; `None` stands for
/// the end of their channel.
pub open spec fn command_leads_to<S, D, P, C>(
    before: Provisioner<S, D, P>,
    message: Option<C>,
    turn: Turn<S, D, P, C>,
) -> bool {
    &&& turn.next == (Provisioner {
        commands_open: before.commands_open && message is Some,
        ..before
    })
    &&& turn.forward == if before.phase is Ready {
        message
    } else {
        None
    }
    &&& turn.event is None && !turn.drain_after_telling && turn.broadcast@.len() == 0
}

/// A dictation command reaches the live session, word for word, exactly if there
/// is one, and is lost otherwise. It changes nothing that the loop knows and tells
/// the UI nothing; the end of the channel is remembered.
pub proof fn commands_reach_only_a_live_session<S, D, P, C>(
    before: Provisioner<S, D, P>,
    message: Option<C>,
    turn: Turn<S, D, P, C>,
)
    requires
        command_leads_to(before, message, turn),
    ensures
        message matches Some(command) ==> turn.forward == (if before.phase is Ready {
            Some(command)
        } else {
            None::<C>
        }),
        message is None ==> turn.forward is None,
        turn.next.phase == before.phase,
        turn.next.models == before.models,
        turn.next.done == before.done,
        turn.next.progress == before.progress,
        turn.next.provisions_open == before.provisions_open,
        turn.next.commands_open <==> before.commands_open && message is Some,
        turn.broadcast@.len() == 0 && turn.event is None && !turn.drain_after_telling,
{
}

/// Whether a turn is the one that a progress tick leads to; `None` stands for the
/// end of their channel.
pub open spec fn progress_leads_to<S, D, P, C>(
    before: Provisioner<S, D, P>,
    message: Option<ModelStatus>,
    turn: Turn<S, D, P, C>,
) -> bool {
    &&& turn.next.models == before.models
    &&& turn.next.done == before.done
    &&& turn.next.commands_open == before.commands_open
    &&& turn.next.provisions_open == before.provisions_open
    &&& turn.forward is None && turn.event is None && !turn.drain_after_telling
    &&& match message {
        Some(status) => turn.next.phase@ == progressed(before.phase@, status@)
            && turn.next.progress == before.progress,
        None => turn.next.phase == before.phase && turn.next.progress is None,
    }
}

/// A tick shows how far the running download is, and touches neither the models
/// as they were read, nor the channels, nor any other phase. Where no more ticks
/// will come, the download goes on: its end is still listened for.
pub proof fn a_tick_moves_only_the_running_download<S, D, P, C>(
    before: Provisioner<S, D, P>,
    message: Option<ModelStatus>,
    turn: Turn<S, D, P, C>,
)
    requires
        progress_leads_to(before, message, turn),
    ensures
        turn.next.models == before.models,
        turn.next.done == before.done,
        turn.next.commands_open == before.commands_open,
        turn.next.provisions_open == before.provisions_open,
        message is Some ==> turn.next.progress == before.progress,
        message is None ==> turn.next.progress is None && turn.next.phase == before.phase,
        !(before.phase is Downloading) ==> turn.next.phase@ == before.phase@,
        message is Some && before.phase is Downloading ==> (
        turn.next.phase matches Phase::Downloading { id, status } && id@
            == before.phase->Downloading_id@ && status@ == message->Some_0@),
        !turn.drain_after_telling && turn.forward is None && turn.event is None,
{
}

/// Whether a turn is the one that the end of a download leads to, given the phase
/// that it led to.
pub open spec fn done_leads_to<S, D, P, C>(
    before: Provisioner<S, D, P>,
    turn: Turn<S, D, P, C>,
) -> bool {
    &&& turn.next.done is None && turn.next.progress is None
    &&& turn.next.commands_open == before.commands_open
    &&& turn.next.provisions_open == before.provisions_open
    &&& turn.drain_after_telling == turn.next.phase is Ready
    &&& turn.forward is None && turn.event is None
    &&& !(before.phase is Downloading) ==> turn.next.phase == before.phase
    &&& !(turn.next.phase is Downloading)
}

/// Once a download has ended, neither its end nor its progress is listened for, no
/// download is shown, and what was pressed meanwhile is dropped exactly if there
/// is a session that it could reach.
pub proof fn nothing_outlives_the_end_of_a_download<S, D, P, C>(
    before: Provisioner<S, D, P>,
    turn: Turn<S, D, P, C>,
)
    requires
        done_leads_to(before, turn),
    ensures
        turn.next.done is None && turn.next.progress is None,
        !(turn.next.phase is Downloading),
        turn.drain_after_telling <==> turn.next.phase is Ready,
        !(before.phase is Downloading) ==> turn.next.phase == before.phase,
        turn.next.commands_open == before.commands_open,
        turn.next.provisions_open == before.provisions_open,
        turn.forward is None && turn.event is None,
{
}

/// Whether the channels of the loop are as a command of the settings tab leaves
/// them.
pub open spec fn channels_follow<S, D, P>(
    before: Provisioner<S, D, P>,
    outcome: ProvisionOutcome<(D, P)>,
    after: Provisioner<S, D, P>,
) -> bool {
    &&& after.commands_open == before.commands_open
    &&& after.provisions_open == before.provisions_open
    &&& match outcome {
        ProvisionOutcome::DownloadStarted(receivers) => after.done == Some(receivers.0)
            && after.progress == Some(receivers.1),
        _ => after.done == before.done && after.progress == before.progress,
    }
}

/// A download that was started is listened to, its end and its progress each on
/// its own channel; and no other command touches what is listened to.
pub proof fn a_started_download_is_listened_to<S, D, P>(
    before: Provisioner<S, D, P>,
    outcome: ProvisionOutcome<(D, P)>,
    after: Provisioner<S, D, P>,
)
    requires
        channels_follow(before, outcome, after),
    ensures
        outcome matches ProvisionOutcome::DownloadStarted((done, progress)) ==> after.done == Some(
            done,
        ) && after.progress == Some(progress),
        !(outcome is DownloadStarted) ==> after.done == before.done && after.progress
            == before.progress,
        after.commands_open == before.commands_open,
        after.provisions_open == before.provisions_open,
{
}

/// Whether nobody is left who could send a command.
pub open spec fn nobody_is_left<S, D, P>(state: Provisioner<S, D, P>) -> bool {
    !state.commands_open && !state.provisions_open
}

/// The loop goes on as long as one of the two channels of commands is open,
/// whatever the phase.
pub proof fn one_open_channel_keeps_the_loop_going<S, D, P>(state: Provisioner<S, D, P>)
    ensures
        state.commands_open ==> !nobody_is_left(state),
        state.provisions_open ==> !nobody_is_left(state),
        nobody_is_left(state) || state.commands_open || state.provisions_open,
{
}

} // verus!
