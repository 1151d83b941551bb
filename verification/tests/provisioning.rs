use std::cell::RefCell;

use crossbeam_channel::{Receiver, Sender};
use vuho_ui::domain::{
    Backend, DictationEvent, ErrorKind, LockedModel, Manifest, ManifestModel, ModelAvailability,
    ModelSource, ModelStatus, ProvisionCommand, UiCommand,
};
use vuho_ui::provisioning::{
    deletion_event, engine_backend, engine_report, model_total_bytes, on_delete_command,
    on_dictation_command, on_download_command, on_download_completed, on_download_progress,
    on_provision_command, on_select_model_command, phase_for_availability, phase_rows, phase_status,
    selected_model_id, unsupported_message, Deletion, DownloadOutcome, Phase, ProvisionOutcome,
    ProvisionStep, SettingWrite,
};
use vuho_ui::provisioning_loop::{Provisioner, Turn};

/// A live session, as far as these tests are concerned.
#[derive(Debug, PartialEq)]
struct Session(u32);

#[derive(Debug, PartialEq)]
enum Command {
    Toggle,
}

type Receivers = (Receiver<DownloadOutcome>, Receiver<ModelStatus>);
type Loop = Provisioner<Session, Receiver<DownloadOutcome>, Receiver<ModelStatus>>;
type LoopTurn = Turn<Session, Receiver<DownloadOutcome>, Receiver<ModelStatus>, Command>;

const DEFAULT: &str = "parakeet-tdt";
const OTHER: &str = "canary-aed";

fn manifest() -> Manifest {
    Manifest {
        default_model: DEFAULT.to_owned(),
        models: vec![
            ManifestModel {
                id: DEFAULT.to_owned(),
                min_macos: "14.0".to_owned(),
                backend: Backend::ParakeetTdt,
            },
            ManifestModel {
                id: OTHER.to_owned(),
                min_macos: "15.0".to_owned(),
                backend: Backend::CanaryAed,
            },
        ],
    }
}

fn lock() -> Vec<LockedModel> {
    vec![LockedModel { id: DEFAULT.to_owned(), total_bytes: 496_210_831 }]
}

fn lock_total_bytes() -> u64 {
    model_total_bytes(&lock(), DEFAULT)
}

fn unreachable_spawn(_id: &str) -> Receivers {
    panic!("spawn_download must not be called in this test");
}

fn never_spawn(_id: &str) -> Receivers {
    (crossbeam_channel::never(), crossbeam_channel::never())
}

fn unreachable_load() -> Option<Session> {
    panic!("the engine loader must not be called in this test");
}

fn unreachable_lookup(_id: &str) -> ModelAvailability {
    panic!("no availability must be looked up in this test");
}

fn unreachable_remove(_id: &str) -> Result<(), String> {
    panic!("nothing must be removed in this test");
}

fn unreachable_persist(_id: &str) -> Option<String> {
    panic!("nothing must be saved in this test");
}

fn availability_of(id: &str, status: ModelStatus, supported: bool) -> ModelAvailability {
    ModelAvailability {
        id: id.to_owned(),
        display_name: id.to_owned(),
        status,
        source: None,
        total_bytes: 100,
        supported_on_this_os: supported,
    }
}

fn absent(id: &str) -> ModelAvailability {
    availability_of(id, ModelStatus::Missing { total_bytes: 100 }, true)
}

fn fake_session() -> Session {
    Session(1)
}

fn fake_ready_phase() -> Phase<Session> {
    Phase::Ready(fake_session())
}

fn needs_model(status: ModelStatus) -> Phase<Session> {
    Phase::NeedsModel {
        id: DEFAULT.to_owned(),
        status,
    }
}

fn downloading(id: &str, status: ModelStatus) -> Phase<Session> {
    Phase::Downloading {
        id: id.to_owned(),
        status,
    }
}

/// The model statuses among some commands.
fn statuses(commands: &[UiCommand]) -> Vec<ModelStatus> {
    commands
        .iter()
        .filter_map(|cmd| match cmd {
            UiCommand::ModelStatus(status) => Some(status.clone()),
            _ => None,
        })
        .collect()
}

fn lists(commands: &[UiCommand]) -> usize {
    commands
        .iter()
        .filter(|cmd| matches!(cmd, UiCommand::ModelList(_)))
        .count()
}

#[test]
fn no_persisted_speech_model_selects_the_manifest_default() {
    assert_eq!(selected_model_id(&None, &manifest()), DEFAULT);
}

#[test]
fn an_unknown_persisted_speech_model_falls_back_to_the_manifest_default() {
    assert_eq!(
        selected_model_id(
            &Some("a-model-this-build-does-not-ship".to_owned()),
            &manifest()
        ),
        DEFAULT,
        "a setting naming a model this build no longer ships must fall back to \
         something loadable, not dead-end on an id nothing can resolve"
    );
}

#[test]
fn a_known_persisted_speech_model_is_selected() {
    let manifest = manifest();
    for model in &manifest.models {
        assert_eq!(
            selected_model_id(&Some(model.id.clone()), &manifest),
            model.id
        );
    }
}

#[test]
fn selecting_a_missing_model_needs_the_model_and_never_loads_an_engine() {
    let phase = phase_for_availability(
        availability_of("some-model", ModelStatus::Missing { total_bytes: 42 }, true),
        &manifest(),
        unreachable_load,
    );
    match phase {
        Phase::NeedsModel { id, status } => {
            assert_eq!(id, "some-model");
            assert_eq!(status, ModelStatus::Missing { total_bytes: 42 });
        }
        other => panic!("expected NeedsModel, got {:?}", phase_status(&other)),
    }
}

#[test]
fn selecting_a_model_this_macos_is_too_old_for_needs_the_model_and_never_loads_an_engine() {
    let phase = phase_for_availability(
        availability_of("some-model", ModelStatus::Ready, false),
        &manifest(),
        unreachable_load,
    );
    assert!(
        matches!(phase_status(&phase), ModelStatus::Failed { .. }),
        "an OS-unsupported model must never report Ready — the menu bar would claim a \
         session that cannot exist"
    );
}

#[test]
fn selecting_a_ready_supported_model_loads_the_engine() {
    let phase = phase_for_availability(
        availability_of("some-model", ModelStatus::Ready, true),
        &manifest(),
        || Some(fake_session()),
    );
    assert!(matches!(phase, Phase::Ready(_)));
}

#[test]
fn a_failing_engine_load_ends_in_engine_failed() {
    let phase: Phase<Session> = phase_for_availability(
        availability_of("some-model", ModelStatus::Ready, true),
        &manifest(),
        || None,
    );
    assert!(matches!(phase, Phase::EngineFailed(_)));
    assert_eq!(
        phase_status(&phase),
        ModelStatus::Failed {
            message: "the model is present but the engine failed to load — see the log for \
                      details"
                .to_owned()
        }
    );
}

#[test]
fn phase_status_covers_every_variant() {
    assert_eq!(
        phase_status(&needs_model(ModelStatus::Missing { total_bytes: 7 })),
        ModelStatus::Missing { total_bytes: 7 }
    );
    assert_eq!(
        phase_status(&downloading("a", ModelStatus::Verifying)),
        ModelStatus::Verifying
    );
    assert_eq!(
        phase_status(&Phase::<Session>::EngineFailed("boom".to_owned())),
        ModelStatus::Failed {
            message: "boom".to_owned()
        }
    );
    assert_eq!(phase_status(&fake_ready_phase()), ModelStatus::Ready);
}

#[test]
fn an_in_flight_download_overrides_only_its_own_row() {
    let models = vec![
        availability_of("a", ModelStatus::Ready, true),
        availability_of("b", ModelStatus::Missing { total_bytes: 100 }, true),
    ];
    let rows = phase_rows(
        &downloading(
            "b",
            ModelStatus::Downloading {
                received_bytes: 10,
                total_bytes: 100,
            },
        ),
        &models,
    );
    assert_eq!(rows[0].status, ModelStatus::Ready);
    assert_eq!(
        rows[1].status,
        ModelStatus::Downloading {
            received_bytes: 10,
            total_bytes: 100
        },
        "the downloading model's bytes live under a .partial directory the resolver \
         cannot see — the phase, not the filesystem, is authoritative for that row"
    );
}

#[test]
fn a_ready_phase_leaves_every_row_as_the_filesystem_reported_it() {
    let models = vec![availability_of("a", ModelStatus::Ready, true)];
    assert_eq!(phase_rows(&fake_ready_phase(), &models), models);
}

/// No command of the settings tab will arrive any more.
fn close_provisions(state: Loop) -> LoopTurn {
    let (turn, ()) = state.on_provision(
        None,
        &None,
        &manifest(),
        &lock(),
        unreachable_lookup,
        unreachable_spawn,
        unreachable_remove,
        unreachable_persist,
        unreachable_load,
        (),
        |(), _: &Phase<Session>| panic!("nothing is dropped"),
        |()| panic!("nothing is read"),
    );
    turn
}

/// Enter the loop and run it to its end with nobody there to send a command;
/// everything that the UI is told on the way.
fn told_until_over(initial: Phase<Session>) -> Vec<UiCommand> {
    let first: LoopTurn = Loop::start(initial, vec![]);
    let mut told = first.broadcast;
    assert!(!first.next.is_over());
    let second: LoopTurn = first.next.on_command(None);
    told.extend(second.broadcast);
    assert!(!second.next.is_over());
    let third = close_provisions(second.next);
    told.extend(third.broadcast);
    assert!(third.next.is_over());
    told
}

#[test]
fn entering_ready_phase_broadcasts_model_status_ready() {
    let told = told_until_over(fake_ready_phase());
    assert_eq!(
        statuses(&told),
        vec![ModelStatus::Ready],
        "entering Phase::Ready must broadcast ModelStatus::Ready"
    );
    assert_eq!(
        lists(&told),
        1,
        "every transition broadcasts the model list alongside the status"
    );
    assert_eq!(told.len(), 2);
}

#[test]
fn entering_the_loop_drops_what_is_waiting_once_the_ui_is_told() {
    let turn: LoopTurn = Loop::start(fake_ready_phase(), vec![]);
    assert!(turn.drain_after_telling);
    assert!(!turn.next.is_over());
}

#[test]
fn entering_engine_failed_phase_broadcasts_a_recoverable_failed_status() {
    let told = told_until_over(Phase::EngineFailed("the engine blew up".to_owned()));
    assert_eq!(
        statuses(&told),
        vec![ModelStatus::Failed {
            message: "the engine blew up".to_owned()
        }],
        "a Ready-but-engine-failed phase must surface a Failed status rather than leaving \
         the UI with nothing sent for it at all"
    );
}

/// Send a download command of the default model into a loop that needs it.
fn begin_download<F: FnOnce(&str) -> Receivers>(spawn: F) -> (LoopTurn, LoopTurn) {
    let first: LoopTurn = Loop::start(
        needs_model(ModelStatus::Missing { total_bytes: 100 }),
        vec![absent(DEFAULT)],
    );
    let started = LoopTurn {
        next: Loop::start::<Command>(
            needs_model(ModelStatus::Missing { total_bytes: 100 }),
            vec![absent(DEFAULT)],
        )
        .next,
        forward: None,
        event: None,
        broadcast: vec![],
        drain_after_telling: false,
    };
    let (second, ()) = started.next.on_provision(
        Some(ProvisionCommand::Download(DEFAULT.to_owned())),
        &None,
        &manifest(),
        &lock(),
        absent,
        spawn,
        unreachable_remove,
        unreachable_persist,
        unreachable_load,
        (),
        |(), _: &Phase<Session>| panic!("no engine was loaded"),
        |()| (vec![absent(DEFAULT)], ()),
    );
    (first, second)
}

#[test]
fn a_download_thread_that_dies_without_reporting_ends_in_a_broadcast_failed_status() {
    let (first, second) = begin_download(|_id| {
        let (done_tx, done_rx) = crossbeam_channel::bounded::<DownloadOutcome>(1);
        drop(done_tx); // the "thread" died before reporting
        (done_rx, crossbeam_channel::never())
    });
    assert_eq!(
        statuses(&first.broadcast),
        vec![ModelStatus::Missing { total_bytes: 100 }]
    );
    assert_eq!(
        statuses(&second.broadcast),
        vec![ModelStatus::Downloading {
            received_bytes: 0,
            total_bytes: lock_total_bytes(),
        }]
    );
    let outcome = second.next.done.as_ref().expect("a download is running").recv().ok();
    assert_eq!(outcome, None);
    let third: LoopTurn = second.next.on_done(
        outcome,
        &None,
        &manifest(),
        unreachable_lookup,
        unreachable_load,
        || vec![absent(DEFAULT)],
    );
    let failed = statuses(&third.broadcast);
    assert!(
        matches!(failed.last(), Some(ModelStatus::Failed { .. })),
        "a download thread that dies without reporting must end in a broadcast Failed \
         status the user can retry from, not silence — got {failed:?}"
    );
    assert_eq!(
        failed,
        vec![ModelStatus::Failed {
            message: "the download stopped unexpectedly — please try again".to_owned()
        }]
    );
    assert!(third.next.done.is_none());
    assert!(!third.drain_after_telling);
}

#[test]
fn a_stale_progress_tick_never_outlives_the_terminal_failed_status() {
    for tick_first in [true, false] {
        let (progress_tx, progress_rx): (Sender<ModelStatus>, _) = crossbeam_channel::unbounded();
        let (done_tx, done_rx) = crossbeam_channel::bounded::<DownloadOutcome>(1);
        let (first, second) = begin_download(move |_id| (done_rx, progress_rx));
        let mut told = statuses(&first.broadcast);
        told.extend(statuses(&second.broadcast));
        assert_eq!(
            told,
            vec![
                ModelStatus::Missing { total_bytes: 100 },
                ModelStatus::Downloading {
                    received_bytes: 0,
                    total_bytes: lock_total_bytes(),
                },
            ]
        );

        // Both are there at once.
        progress_tx
            .send(ModelStatus::Downloading {
                received_bytes: 50,
                total_bytes: lock_total_bytes(),
            })
            .unwrap();
        done_tx
            .send(DownloadOutcome::Failed("connection reset".to_owned()))
            .unwrap();

        let mut state = second.next;
        if tick_first {
            let tick = state.progress.as_ref().unwrap().recv().ok();
            let turn: LoopTurn = state.on_progress(tick);
            told.extend(statuses(&turn.broadcast));
            state = turn.next;
        }
        let outcome = state.done.as_ref().unwrap().recv().ok();
        let turn: LoopTurn = state.on_done(
            outcome,
            &None,
            &manifest(),
            unreachable_lookup,
            unreachable_load,
            || vec![absent(DEFAULT)],
        );
        told.extend(statuses(&turn.broadcast));
        assert!(
            matches!(told.last(), Some(ModelStatus::Failed { .. })),
            "a stale Downloading tick must never be the last status broadcast after a \
             completion — got {told:?}"
        );
        // Nobody listens for a straggler any more.
        assert!(turn.next.progress.is_none());
        assert!(turn.next.done.is_none());
    }
}

#[test]
fn dictation_commands_are_discarded_before_the_model_is_ready() {
    for phase in [
        needs_model(ModelStatus::Missing { total_bytes: 1 }),
        downloading("a", ModelStatus::Verifying),
        Phase::EngineFailed("boom".to_owned()),
    ] {
        let (next, forwarded) = on_dictation_command(phase, Command::Toggle);
        assert!(
            !matches!(next, Phase::Ready(_)),
            "a Dictation command must never conjure a Ready phase out of \
             nothing"
        );
        assert_eq!(forwarded, None);
    }
}

#[test]
fn dictation_commands_reach_the_session_once_ready() {
    let (phase, forwarded) = on_dictation_command(fake_ready_phase(), Command::Toggle);
    assert!(matches!(phase, Phase::Ready(_)));
    assert_eq!(forwarded, Some(Command::Toggle));
}

#[test]
fn download_from_needs_model_starts_a_download_with_zero_received_bytes() {
    let (phase, outcome) = on_download_command(
        needs_model(ModelStatus::Missing { total_bytes: 100 }),
        DEFAULT,
        &manifest(),
        &lock(),
        absent,
        never_spawn,
    );

    assert_eq!(
        phase_status(&phase),
        ModelStatus::Downloading {
            received_bytes: 0,
            total_bytes: lock_total_bytes(),
        },
        "the transition to Downloading must be synchronous with the \
         click, not wait for the first real progress tick"
    );
    assert!(matches!(outcome, ProvisionOutcome::DownloadStarted(..)));
}

#[test]
fn download_from_engine_failed_starts_a_download() {
    let (phase, outcome) = on_download_command(
        Phase::<Session>::EngineFailed("boom".to_owned()),
        DEFAULT,
        &manifest(),
        &lock(),
        absent,
        never_spawn,
    );
    assert!(matches!(phase, Phase::Downloading { .. }));
    assert!(matches!(outcome, ProvisionOutcome::DownloadStarted(..)));
}

#[test]
fn download_from_ready_starts_a_download() {
    let (phase, outcome) = on_download_command(
        fake_ready_phase(),
        DEFAULT,
        &manifest(),
        &lock(),
        absent,
        never_spawn,
    );
    assert!(matches!(phase, Phase::Downloading { .. }));
    assert!(matches!(outcome, ProvisionOutcome::DownloadStarted(..)));
}

#[test]
fn download_of_the_same_model_while_it_downloads_is_ignored() {
    let (phase, outcome) = on_download_command(
        downloading("a", ModelStatus::Verifying),
        "a",
        &manifest(),
        &lock(),
        unreachable_lookup,
        unreachable_spawn,
    );
    assert!(matches!(phase, Phase::Downloading { id, .. } if id == "a"));
    assert!(matches!(outcome, ProvisionOutcome::Handled));
}

#[test]
fn download_of_another_model_while_one_is_in_flight_leaves_the_in_flight_one_untouched() {
    let (phase, outcome) = on_download_command(
        downloading(
            "a",
            ModelStatus::Downloading {
                received_bytes: 10,
                total_bytes: 100,
            },
        ),
        "b",
        &manifest(),
        &lock(),
        unreachable_lookup,
        unreachable_spawn, // panics if a second download is started
    );

    match phase {
        Phase::Downloading { id, status } => {
            assert_eq!(id, "a", "the in-flight download must not be replaced");
            assert_eq!(
                status,
                ModelStatus::Downloading {
                    received_bytes: 10,
                    total_bytes: 100
                },
                "its progress must not be reset either"
            );
        }
        other => panic!(
            "expected the in-flight Downloading phase, got {:?}",
            phase_status(&other)
        ),
    }
    assert!(matches!(outcome, ProvisionOutcome::Handled));
}

#[test]
fn download_of_an_unknown_model_is_refused() {
    let (phase, outcome) = on_download_command(
        needs_model(ModelStatus::Missing { total_bytes: 1 }),
        "no-such-model",
        &manifest(),
        &lock(),
        absent,
        unreachable_spawn,
    );
    assert!(matches!(phase, Phase::NeedsModel { .. }));
    assert!(matches!(outcome, ProvisionOutcome::Handled));
}

#[test]
fn selecting_a_model_while_downloading_persists_it_without_touching_the_download() {
    let saved: RefCell<Option<String>> = RefCell::new(None);
    let target = manifest().models[0].id.clone();

    let (phase, outcome, setting): (_, ProvisionOutcome<Receivers>, _) = on_select_model_command(
        downloading("a", ModelStatus::Verifying),
        &target,
        &manifest(),
        |id| {
            *saved.borrow_mut() = Some(id.to_owned());
            saved.borrow().clone()
        },
        unreachable_lookup,
        unreachable_load,
    );

    assert!(matches!(phase, Phase::Downloading { id, .. } if id == "a"));
    assert!(matches!(outcome, ProvisionOutcome::Handled));
    assert_eq!(saved.borrow().as_ref(), Some(&target));
    assert_eq!(setting, SettingWrite::Saved { now: Some(target) });
}

#[test]
fn selecting_an_unknown_model_changes_nothing() {
    let (phase, outcome, setting): (_, ProvisionOutcome<Receivers>, _) = on_select_model_command(
        needs_model(ModelStatus::Missing { total_bytes: 1 }),
        "no-such-model",
        &manifest(),
        unreachable_persist,
        unreachable_lookup,
        unreachable_load,
    );
    assert!(matches!(phase, Phase::NeedsModel { .. }));
    assert!(matches!(outcome, ProvisionOutcome::Handled));
    assert_eq!(setting, SettingWrite::Untouched);
}

#[test]
fn deleting_the_in_flight_model_is_refused_and_leaves_the_phase_alone() {
    let (phase, deletion) = on_delete_command(
        downloading("a", ModelStatus::Verifying),
        "a",
        &None,
        &manifest(),
        unreachable_lookup,
        unreachable_remove,
    );
    assert!(matches!(phase, Phase::Downloading { id, .. } if id == "a"));
    assert_eq!(deletion, Deletion::RefusedInFlight);
}

#[test]
fn deleting_the_selected_model_is_refused() {
    let selected = selected_model_id(&None, &manifest());
    let (phase, deletion) = on_delete_command(
        fake_ready_phase(),
        &selected,
        &None,
        &manifest(),
        unreachable_lookup,
        unreachable_remove,
    );
    assert!(matches!(phase, Phase::Ready(_)));
    assert_eq!(deletion, Deletion::RefusedSelected);
}

#[test]
fn deleting_from_needs_model_leaves_the_phase_alone() {
    let (phase, deletion) = on_delete_command(
        needs_model(ModelStatus::Missing { total_bytes: 1 }),
        "a-model-this-build-does-not-ship",
        &None,
        &manifest(),
        absent,
        unreachable_remove,
    );
    assert!(matches!(phase, Phase::NeedsModel { .. }));
    assert_eq!(deletion, Deletion::RefusedNotOurs);
}

#[test]
fn deleting_from_engine_failed_leaves_the_phase_alone() {
    let (phase, deletion) = on_delete_command(
        Phase::<Session>::EngineFailed("boom".to_owned()),
        "a-model-this-build-does-not-ship",
        &None,
        &manifest(),
        absent,
        unreachable_remove,
    );
    assert!(matches!(phase, Phase::EngineFailed(_)));
    assert_eq!(deletion, Deletion::RefusedNotOurs);
}

#[test]
fn a_progress_tick_keeps_the_in_flight_model_id() {
    let phase = on_download_progress(
        downloading("a", ModelStatus::Verifying),
        ModelStatus::Downloading {
            received_bytes: 5,
            total_bytes: 10,
        },
    );
    assert!(matches!(phase, Phase::Downloading { id, .. } if id == "a"));
}

#[test]
fn a_progress_tick_after_completion_never_resurrects_downloading() {
    let phase = on_download_progress(
        fake_ready_phase(),
        ModelStatus::Downloading {
            received_bytes: 5,
            total_bytes: 10,
        },
    );
    assert!(matches!(phase, Phase::Ready(_)));
}

#[test]
fn failed_download_outside_downloading_is_left_unchanged() {
    let phase = on_download_completed(
        needs_model(ModelStatus::Missing { total_bytes: 5 }),
        DownloadOutcome::Failed("simulated".to_owned()),
        &None,
        &manifest(),
        unreachable_lookup,
        unreachable_load,
    );
    assert!(matches!(
        phase,
        Phase::NeedsModel {
            status: ModelStatus::Missing { total_bytes: 5 },
            ..
        }
    ));
}

#[test]
fn failed_download_from_downloading_carries_the_message_into_needs_model() {
    let phase = on_download_completed(
        downloading(
            "a",
            ModelStatus::Downloading {
                received_bytes: 10,
                total_bytes: 100,
            },
        ),
        DownloadOutcome::Failed("connection reset".to_owned()),
        &None,
        &manifest(),
        unreachable_lookup,
        unreachable_load,
    );
    assert_eq!(
        phase_status(&phase),
        ModelStatus::Failed {
            message: "connection reset".to_owned()
        }
    );
    assert!(
        matches!(&phase, Phase::NeedsModel { id, .. } if id == "a"),
        "the failed row must be the model that was actually downloading"
    );
}

#[test]
fn a_finished_download_loads_the_selected_model_not_the_downloaded_one() {
    let looked_up: RefCell<Option<String>> = RefCell::new(None);
    let phase = on_download_completed(
        downloading(DEFAULT, ModelStatus::Verifying),
        DownloadOutcome::Finished,
        &Some(OTHER.to_owned()),
        &manifest(),
        |id| {
            *looked_up.borrow_mut() = Some(id.to_owned());
            availability_of(id, ModelStatus::Ready, true)
        },
        || Some(Session(9)),
    );
    assert!(matches!(phase, Phase::Ready(Session(9))));
    assert_eq!(looked_up.borrow().as_deref(), Some(OTHER));
}

#[test]
fn selecting_a_model_drops_the_session_before_it_loads() {
    struct LoggedDrop<'a>(&'a RefCell<Vec<&'static str>>);
    impl Drop for LoggedDrop<'_> {
        fn drop(&mut self) {
            self.0.borrow_mut().push("dropped");
        }
    }
    let log = RefCell::new(Vec::new());
    let (phase, outcome, setting): (_, ProvisionOutcome<Receivers>, _) = on_select_model_command(
        Phase::Ready(LoggedDrop(&log)),
        OTHER,
        &manifest(),
        |id| Some(id.to_owned()),
        |id| availability_of(id, ModelStatus::Ready, true),
        || {
            log.borrow_mut().push("loaded");
            None
        },
    );
    assert!(matches!(phase, Phase::EngineFailed(_)));
    assert!(matches!(outcome, ProvisionOutcome::ReloadedBlocking));
    assert_eq!(setting, SettingWrite::Saved { now: Some(OTHER.to_owned()) });
    assert_eq!(*log.borrow(), vec!["dropped", "loaded"]);
}

#[test]
fn an_unsupported_model_is_explained_and_not_downloaded() {
    let manifest = manifest();
    let old = availability_of(OTHER, ModelStatus::Missing { total_bytes: 1 }, false);
    assert_eq!(
        unsupported_message(&old, &manifest),
        "canary-aed needs macOS 15.0 or later."
    );
    let unknown = availability_of("x", ModelStatus::Ready, false);
    assert_eq!(
        unsupported_message(&unknown, &manifest),
        "x is not supported on this Mac."
    );
    let (phase, outcome) = on_download_command(
        fake_ready_phase(),
        OTHER,
        &manifest,
        &lock(),
        |_: &str| old.clone(),
        unreachable_spawn,
    );
    assert!(matches!(phase, Phase::Ready(_)));
    assert!(matches!(outcome, ProvisionOutcome::Handled));
}

fn own(id: &str) -> ModelAvailability {
    ModelAvailability {
        source: Some(ModelSource::UserData),
        ..availability_of(id, ModelStatus::Ready, true)
    }
}

#[test]
fn an_own_idle_model_is_deleted_and_a_failure_is_reported() {
    let (phase, deletion) = on_delete_command(
        fake_ready_phase(),
        OTHER,
        &None,
        &manifest(),
        own,
        |id| {
            assert_eq!(id, OTHER);
            Ok(())
        },
    );
    assert!(matches!(phase, Phase::Ready(_)));
    assert_eq!(deletion, Deletion::Deleted);
    assert_eq!(deletion_event(&deletion, OTHER), None);

    let step: ProvisionStep<Session, Receivers> = on_provision_command(
        fake_ready_phase(),
        ProvisionCommand::Delete(OTHER.to_owned()),
        &None,
        &manifest(),
        &lock(),
        own,
        unreachable_spawn,
        |_| Err("read-only".to_owned()),
        unreachable_persist,
        unreachable_load,
    );
    assert!(matches!(step.phase, Phase::Ready(_)));
    assert!(matches!(step.outcome, ProvisionOutcome::Handled));
    assert_eq!(step.setting, SettingWrite::Untouched);
    assert_eq!(
        step.event,
        Some(DictationEvent::Error {
            message: "Could not delete canary-aed: read-only".to_owned(),
            recoverable: true,
            kind: ErrorKind::Other,
        })
    );
}

#[test]
fn the_download_size_comes_from_the_pinned_list() {
    assert_eq!(model_total_bytes(&lock(), DEFAULT), 496_210_831);
    assert_eq!(model_total_bytes(&lock(), OTHER), 0);
}

#[test]
fn the_engine_s_load_is_reported() {
    assert_eq!(engine_report(Ok(())), (UiCommand::EngineReady(Ok(())), None));
    assert_eq!(
        engine_report(Err("no memory".to_owned())),
        (
            UiCommand::EngineReady(Err("no memory".to_owned())),
            Some(DictationEvent::Error {
                message: "Engine unavailable: no memory".to_owned(),
                recoverable: false,
                kind: ErrorKind::Other,
            })
        )
    );
    assert_eq!(engine_backend(&manifest(), DEFAULT), Some(Backend::ParakeetTdt));
    assert_eq!(engine_backend(&manifest(), OTHER), Some(Backend::CanaryAed));
    assert_eq!(engine_backend(&manifest(), "x"), None);
}

#[test]
fn the_loop_ends_only_once_both_channels_are_closed() {
    let turn: LoopTurn = Loop::start(fake_ready_phase(), vec![]);
    let turn: LoopTurn = turn.next.on_command(None);
    assert!(!turn.next.is_over());
    assert!(turn.broadcast.is_empty());
    let turn = close_provisions(turn.next);
    assert!(turn.broadcast.is_empty());
    assert!(turn.next.is_over());
    assert!(matches!(turn.next.phase, Phase::Ready(_)));
}

#[test]
fn the_loop_forwards_commands_to_a_live_session_only() {
    let turn: LoopTurn = Loop::start(fake_ready_phase(), vec![]);
    let turn: LoopTurn = turn.next.on_command(Some(Command::Toggle));
    assert_eq!(turn.forward, Some(Command::Toggle));
    assert!(turn.broadcast.is_empty());
    let turn: LoopTurn = Loop::start(needs_model(ModelStatus::Missing { total_bytes: 1 }), vec![]);
    let turn: LoopTurn = turn.next.on_command(Some(Command::Toggle));
    assert_eq!(turn.forward, None);
}

#[test]
fn a_reload_drops_what_is_waiting_before_the_models_are_read() {
    let turn: LoopTurn = Loop::start(fake_ready_phase(), vec![]);
    let (turn, steps): (LoopTurn, Vec<&str>) = turn.next.on_provision(
        Some(ProvisionCommand::SelectModel(OTHER.to_owned())),
        &None,
        &manifest(),
        &lock(),
        |id| availability_of(id, ModelStatus::Ready, true),
        unreachable_spawn,
        unreachable_remove,
        |id| Some(id.to_owned()),
        || Some(Session(2)),
        Vec::new(),
        |mut steps: Vec<&str>, phase: &Phase<Session>| {
            assert!(matches!(phase, Phase::Ready(Session(2))));
            steps.push("drop");
            steps
        },
        |mut steps: Vec<&str>| {
            steps.push("read");
            (vec![absent(OTHER)], steps)
        },
    );
    assert_eq!(steps, vec!["drop", "read"]);
    assert!(!turn.drain_after_telling);
    assert_eq!(turn.next.models, vec![absent(OTHER)]);
    assert_eq!(statuses(&turn.broadcast), vec![ModelStatus::Ready]);
}

#[test]
fn the_end_of_a_download_drops_what_is_waiting_once_the_ui_is_told() {
    let (_, second) = begin_download(never_spawn);
    assert!(!second.drain_after_telling);
    let third: LoopTurn = second.next.on_done(
        Some(DownloadOutcome::Finished),
        &None,
        &manifest(),
        |id| availability_of(id, ModelStatus::Ready, true),
        || Some(Session(3)),
        Vec::new,
    );
    assert!(third.drain_after_telling);
    assert!(matches!(third.next.phase, Phase::Ready(Session(3))));
}

#[test]
fn the_end_of_the_progress_channel_is_not_the_end_of_the_download() {
    let (_, second) = begin_download(never_spawn);
    let third: LoopTurn = second.next.on_progress(None);
    assert!(third.next.progress.is_none());
    assert!(third.next.done.is_some());
    assert!(matches!(third.next.phase, Phase::Downloading { .. }));
    assert!(third.broadcast.is_empty());
}

#[test]
fn each_phase_is_told_as_a_status_and_its_rows() {
    let rows = vec![own("other")];
    // A loop may be entered in any phase.
    let tick = |received_bytes| ModelStatus::Downloading { received_bytes, total_bytes: 10 };
    let entered: LoopTurn = Loop::start(downloading("other", tick(1)), rows);
    assert!(entered.next.done.is_none());
    let mut told = entered.broadcast;
    let command: LoopTurn = entered.next.on_command(Some(Command::Toggle));
    told.extend(command.broadcast);
    let moved: LoopTurn = command.next.on_progress(Some(tick(2)));
    told.extend(moved.broadcast);
    let quiet: LoopTurn = moved.next.on_progress(None);
    told.extend(quiet.broadcast);
    assert_eq!(told.len(), 4);
    assert_eq!(statuses(&told), vec![tick(1), tick(2)]);
    for pair in told.chunks(2) {
        assert!(matches!(&pair[0], UiCommand::ModelStatus(_)));
        match &pair[1] {
            UiCommand::ModelList(rows) => {
                assert_eq!(rows.len(), 1);
                assert_eq!(statuses(&pair[..1]), vec![rows[0].status.clone()]);
            }
            other => panic!("expected the rows, got {other:?}"),
        }
    }
}
