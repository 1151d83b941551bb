//! The provisioning state machine: which model is usable, which is being
//! downloaded, and what the UI is told about it.
//!
//! A [`Phase`] alone fixes what the UI shows ([`phase_status`] and
//! [`phase_rows`]), and [`broadcast_phase`] is the only producer of the two
//! commands that carry it.

use vstd::prelude::*;

use crate::domain::{
    is_deletable, model_views, Backend, DictationEvent, DictationEventView, ErrorKind, LockedModel, Manifest,
    ModelAvailability, ModelAvailabilityView, ModelSource, ModelStatus, ModelStatusView, ProvisionCommand,
    ProvisionCommandView, UiCommand, UiCommandView,
};
use crate::text::{join2, join3, same_text};
use vstd::string::StringExecFns;

verus! {

/// The state of the provisioning loop. `S` is a live dictation session.
#[derive(Debug)]
pub enum Phase<S> {
    /// No usable model yet, or a download attempt failed. `id` names the model
    /// that `status` is about.
    NeedsModel { id: String, status: ModelStatus },
    /// A download of `id` is in flight, which is not necessarily the selected
    /// model.
    Downloading { id: String, status: ModelStatus },
    /// The selected model is on disk, but the engine failed to load.
    EngineFailed(String),
    /// The engine is loaded and the session takes dictation commands.
    Ready(S),
}

/// [`Phase`] as a mathematical value.
#[verifier::ext_equal]
pub ghost enum PhaseView<S> {
    NeedsModel { id: Seq<char>, status: ModelStatusView },
    Downloading { id: Seq<char>, status: ModelStatusView },
    EngineFailed(Seq<char>),
    Ready(S),
}

impl<S> View for Phase<S> {
    type V = PhaseView<S>;

    open spec fn view(&self) -> PhaseView<S> {
        match *self {
            Phase::NeedsModel { id, status } => PhaseView::NeedsModel { id: id@, status: status@ },
            Phase::Downloading { id, status } => PhaseView::Downloading { id: id@, status: status@ },
            Phase::EngineFailed(message) => PhaseView::EngineFailed(message@),
            Phase::Ready(session) => PhaseView::Ready(session),
        }
    }
}

/// The model status a phase implies.
pub open spec fn status_of_phase<S>(phase: PhaseView<S>) -> ModelStatusView {
    match phase {
        PhaseView::NeedsModel { status, .. } => status,
        PhaseView::Downloading { status, .. } => status,
        PhaseView::EngineFailed(message) => ModelStatusView::Failed { message },
        PhaseView::Ready(_) => ModelStatusView::Ready,
    }
}

/// The model status a phase implies: a phase alone fixes what the menu bar
/// shows.
pub fn phase_status<S>(phase: &Phase<S>) -> (r: ModelStatus)
    ensures
        r@ == status_of_phase(phase@),
{
    match phase {
        Phase::NeedsModel { status, .. } => status.clone(),
        Phase::Downloading { status, .. } => status.clone(),
        Phase::EngineFailed(message) => ModelStatus::Failed { message: message.clone() },
        Phase::Ready(_) => ModelStatus::Ready,
    }
}

/// The one model whose row the phase knows better than the disk does.
pub open spec fn row_override<S>(phase: PhaseView<S>) -> Option<(Seq<char>, ModelStatusView)> {
    match phase {
        PhaseView::NeedsModel { id, status } => Some((id, status)),
        PhaseView::Downloading { id, status } => Some((id, status)),
        PhaseView::EngineFailed(_) => None,
        PhaseView::Ready(_) => None,
    }
}

/// The one model whose row the phase knows better than the disk does: the bytes
/// of a download in flight are not where a look at the disk would find them,
/// and a download that just failed leaves no trace there.
pub fn phase_row_override<S>(phase: &Phase<S>) -> (r: Option<(String, ModelStatus)>)
    ensures
        match (r, row_override(phase@)) {
            (Some((id, status)), Some((want_id, want_status))) => id@ == want_id && status@
                == want_status,
            (None, None) => true,
            _ => false,
        },
{
    match phase {
        Phase::NeedsModel { id, status } => Some((id.clone(), status.clone())),
        Phase::Downloading { id, status } => Some((id.clone(), status.clone())),
        Phase::EngineFailed(_) => None,
        Phase::Ready(_) => None,
    }
}

/// One row of the model list, as the phase leaves it.
pub open spec fn row_of<S>(
    phase: PhaseView<S>,
    model: ModelAvailabilityView,
) -> ModelAvailabilityView {
    match row_override(phase) {
        Some((id, status)) => if model.id == id {
            ModelAvailabilityView { status, ..model }
        } else {
            model
        },
        None => model,
    }
}

/// The model list to show for a phase, row by row.
pub open spec fn rows_of<S>(
    phase: PhaseView<S>,
    models: Seq<ModelAvailabilityView>,
) -> Seq<ModelAvailabilityView> {
    models.map_values(|m: ModelAvailabilityView| row_of(phase, m))
}

/// The model list to show: `models` as last read from disk, with the row that
/// the phase knows better replaced.
pub fn phase_rows<S>(phase: &Phase<S>, models: &Vec<ModelAvailability>) -> (r: Vec<
    ModelAvailability,
>)
    ensures
        model_views(r@) == rows_of(phase@, model_views(models@)),
{
    let (id, status) = match phase_row_override(phase) {
        Some(row) => row,
        None => {
            let rows = models.clone();
            return rows;
        },
    };
    let mut rows: Vec<ModelAvailability> = Vec::new();
    let mut i: usize = 0;
    while i < models.len()
        invariant
            i <= models@.len(),
            row_override(phase@) == Some((id@, status@)),
            rows@.len() == i,
            forall|j: int|
                0 <= j < i ==> (#[trigger] rows@[j])@ == row_of(phase@, models@[j]@),
        decreases models@.len() - i,
    {
        let mut row = models[i].clone();
        if row.id == id {
            row.status = status.clone();
        }
        rows.push(row);
        i = i + 1;
    }
    rows
}

/// The two commands that tell the UI about a phase.
pub open spec fn broadcast_of<S>(
    phase: PhaseView<S>,
    models: Seq<ModelAvailabilityView>,
) -> Seq<UiCommandView> {
    seq![
        UiCommandView::ModelStatus(status_of_phase(phase)),
        UiCommandView::ModelList(rows_of(phase, models)),
    ]
}

/// Commands as a sequence of mathematical values.
pub open spec fn command_views(commands: Seq<UiCommand>) -> Seq<UiCommandView> {
    commands.map_values(|c: UiCommand| c@)
}

/// The commands that tell the UI about a phase: the selected model's status,
/// then the model list.
pub fn broadcast_phase<S>(phase: &Phase<S>, models: &Vec<ModelAvailability>) -> (r: Vec<UiCommand>)
    ensures
        command_views(r@) == broadcast_of(phase@, model_views(models@)),
{
    let status = phase_status(phase);
    let rows = phase_rows(phase, models);
    let commands = vec![UiCommand::ModelStatus(status), UiCommand::ModelList(rows)];
    commands
}

/// The selected model: the persisted choice where this build ships it, the
/// manifest's default otherwise.
pub open spec fn selected_of(persisted: Option<String>, manifest: Manifest) -> Seq<char> {
    match persisted {
        Some(id) => if manifest.ships(id@) {
            id@
        } else {
            manifest.default_model@
        },
        None => manifest.default_model@,
    }
}

/// The model the user picked. No choice means the manifest's default, and so
/// does a choice that this build no longer ships.
pub fn selected_model_id(persisted: &Option<String>, manifest: &Manifest) -> (r: String)
    ensures
        r@ == selected_of(*persisted, *manifest),
{
    match persisted {
        Some(id) => match manifest.model(id.as_str()) {
            Some(_) => id.clone(),
            None => manifest.default_model.clone(),
        },
        None => manifest.default_model.clone(),
    }
}

/// Whether a model may be loaded: this system can run it and its files are
/// there.
pub open spec fn cleared_to_load(model: ModelAvailabilityView) -> bool {
    model.supported_on_this_os && model.status == ModelStatusView::Ready
}

/// Why a model that this system is too old for cannot be used.
pub open spec fn unsupported_text(model: ModelAvailabilityView, manifest: Manifest) -> Seq<char> {
    match manifest.spec_model(model.id) {
        Some(m) => model.display_name + " needs macOS "@ + m.min_macos@ + " or later."@,
        None => model.display_name + " is not supported on this Mac."@,
    }
}

/// Why a model that this system is too old for cannot be used, naming the
/// oldest version that the manifest gives.
pub fn unsupported_message(availability: &ModelAvailability, manifest: &Manifest) -> (r: String)
    ensures
        r@ == unsupported_text(availability@, *manifest),
{
    match manifest.model(availability.id.as_str()) {
        Some(model) => {
            let mut text = join3(
                availability.display_name.as_str(),
                " needs macOS ",
                model.min_macos.as_str(),
            );
            text.append(" or later.");
            text
        },
        None => join2(availability.display_name.as_str(), " is not supported on this Mac."),
    }
}

/// The phase that refuses to load a model that is not cleared.
pub open spec fn refusal_of<S>(model: ModelAvailabilityView, manifest: Manifest) -> PhaseView<S> {
    PhaseView::NeedsModel {
        id: model.id,
        status: if !model.supported_on_this_os {
            ModelStatusView::Failed { message: unsupported_text(model, manifest) }
        } else {
            model.status
        },
    }
}

/// The phase after an attempt to load the engine.
pub open spec fn phase_of_load<S>(loaded: Option<S>) -> PhaseView<S> {
    match loaded {
        Some(session) => PhaseView::Ready(session),
        None => PhaseView::EngineFailed(
            "the model is present but the engine failed to load — see the log for details"@,
        ),
    }
}

/// The phase after an attempt to load the engine.
pub fn phase_after_load<S>(loaded: Option<S>) -> (r: Phase<S>)
    ensures
        r@ == phase_of_load(loaded),
{
    match loaded {
        Some(session) => Phase::Ready(session),
        None => Phase::EngineFailed(
            "the model is present but the engine failed to load — see the log for details".to_owned(),
        ),
    }
}

/// Whether `phase` is what a model's availability leads to, with `load` as the
/// way to load the engine.
pub open spec fn leads_to<S, L: FnOnce() -> Option<S>>(
    model: ModelAvailabilityView,
    manifest: Manifest,
    load: L,
    phase: PhaseView<S>,
) -> bool {
    if cleared_to_load(model) {
        exists|loaded: Option<S>| #[trigger]
            load.ensures((), loaded) && phase == phase_of_load(loaded)
    } else {
        phase == refusal_of::<S>(model, manifest)
    }
}

/// The phase one model's availability implies. `load` is called only for a
/// model that this system supports and whose files are ready.
pub fn phase_for_availability<S, L: FnOnce() -> Option<S>>(
    availability: ModelAvailability,
    manifest: &Manifest,
    load: L,
) -> (r: Phase<S>)
    requires
        cleared_to_load(availability@) ==> load.requires(()),
    ensures
        leads_to(availability@, *manifest, load, r@),
        !(r is Downloading),
{
    if !availability.supported_on_this_os {
        let message = unsupported_message(&availability, manifest);
        return Phase::NeedsModel {
            id: availability.id,
            status: ModelStatus::Failed { message },
        };
    }
    match availability.status {
        ModelStatus::Ready => phase_after_load(load()),
        status => Phase::NeedsModel { id: availability.id, status },
    }
}

/// Whether `phase` is what loading the model `selected` leads to.
pub open spec fn reload_leads_to<S, A: FnOnce(&str) -> ModelAvailability, L: FnOnce() -> Option<S>>(
    selected: Seq<char>,
    manifest: Manifest,
    lookup: A,
    load: L,
    phase: PhaseView<S>,
) -> bool {
    exists|id: &str, model: ModelAvailability| #[trigger]
        lookup.ensures((id,), model) && id@ == selected && leads_to(model@, manifest, load, phase)
}

/// Whether loading the model `selected` may look it up with `lookup` and, if
/// that clears it, load it with `load`.
pub open spec fn reload_allowed<S, A: FnOnce(&str) -> ModelAvailability, L: FnOnce() -> Option<S>>(
    selected: Seq<char>,
    lookup: A,
    load: L,
) -> bool {
    &&& forall|id: &str| id@ == selected ==> #[trigger] lookup.requires((id,))
    &&& forall|id: &str, model: ModelAvailability| #[trigger]
        lookup.ensures((id,), model) && id@ == selected && cleared_to_load(model@)
            ==> load.requires(())
}

/// The phase the selected model implies right now. Startup, a finished download
/// and every selection come through here.
pub fn load_selected_model<S, A: FnOnce(&str) -> ModelAvailability, L: FnOnce() -> Option<S>>(
    persisted: &Option<String>,
    manifest: &Manifest,
    lookup: A,
    load: L,
) -> (r: Phase<S>)
    requires
        reload_allowed::<S, A, L>(selected_of(*persisted, *manifest), lookup, load),
    ensures
        reload_leads_to(selected_of(*persisted, *manifest), *manifest, lookup, load, r@),
        !(r is Downloading),
{
    let selected = selected_model_id(persisted, manifest);
    let availability = lookup(selected.as_str());
    phase_for_availability(availability, manifest, load)
}

/// Which dictation command, if any, goes on to the live session: only a ready
/// phase has one. The phase itself stays as it is.
pub fn on_dictation_command<S, C>(phase: Phase<S>, command: C) -> (r: (Phase<S>, Option<C>))
    ensures
        r.1 == goes_on(phase, command),
        r.0 == phase,
        r.1 == if phase is Ready {
            Some(command)
        } else {
            None
        },
{
    match phase {
        Phase::Ready(session) => (Phase::Ready(session), Some(command)),
        waiting => (waiting, None),
    }
}

/// What the download of a model will fetch: the first entry of that name in the
/// pinned list, or 0 where there is none.
pub open spec fn locked_bytes(lock: Seq<LockedModel>, id: Seq<char>) -> u64
    decreases lock.len(),
{
    if lock.len() == 0 {
        0
    } else if lock[0].id@ == id {
        lock[0].total_bytes
    } else {
        locked_bytes(lock.drop_first(), id)
    }
}

/// The download size of a model, from the pinned list; 0 where the list does not
/// know the model.
pub fn model_total_bytes(lock: &Vec<LockedModel>, id: &str) -> (r: u64)
    ensures
        r == locked_bytes(lock@, id@),
{
    let mut i: usize = 0;
    assert(lock@.skip(0) =~= lock@);
    while i < lock.len()
        invariant
            i <= lock@.len(),
            locked_bytes(lock@, id@) == locked_bytes(lock@.skip(i as int), id@),
        decreases lock@.len() - i,
    {
        assert(lock@.skip(i as int).drop_first() =~= lock@.skip(i + 1));
        if same_text(lock[i].id.as_str(), id) {
            return lock[i].total_bytes;
        }
        i = i + 1;
    }
    0
}

/// What handling a [`ProvisionCommand`] leaves for the loop to do. `R` is what a
/// started download reports through.
#[derive(Debug)]
pub enum ProvisionOutcome<R> {
    /// A download is running and reports through this.
    DownloadStarted(R),
    /// The engine was loaded in place, which blocked the loop: commands that
    /// came in meanwhile are stale.
    ReloadedBlocking,
    /// Nothing is left to do.
    Handled,
}

/// Whether a download of `model` may start, whatever else is going on: this
/// build ships it and this system can run it.
pub open spec fn may_download(id: Seq<char>, model: ModelAvailabilityView, manifest: Manifest) -> bool {
    manifest.ships(id) && model.supported_on_this_os
}

/// The phase in which a download of `id` has just started.
pub open spec fn download_begun<S>(id: Seq<char>, lock: Seq<LockedModel>) -> PhaseView<S> {
    PhaseView::Downloading {
        id,
        status: ModelStatusView::Downloading {
            received_bytes: 0,
            total_bytes: locked_bytes(lock, id),
        },
    }
}

/// Whether starting a download of `id` may use `lookup` and `spawn`.
pub open spec fn start_allowed<R, A: FnOnce(&str) -> ModelAvailability, F: FnOnce(&str) -> R>(
    id: &str,
    manifest: Manifest,
    lookup: A,
    spawn: F,
) -> bool {
    &&& lookup.requires((id,))
    &&& forall|model: ModelAvailability| #[trigger]
        lookup.ensures((id,), model) && may_download(id@, model@, manifest) ==> spawn.requires((id,))
}

/// Whether starting a download of `id` leads to this phase and outcome.
pub open spec fn start_leads_to<
    S,
    R,
    A: FnOnce(&str) -> ModelAvailability,
    F: FnOnce(&str) -> R,
>(
    before: Phase<S>,
    id: &str,
    manifest: Manifest,
    lock: Seq<LockedModel>,
    lookup: A,
    spawn: F,
    phase: Phase<S>,
    outcome: ProvisionOutcome<R>,
) -> bool {
    exists|model: ModelAvailability| #[trigger]
        lookup.ensures((id,), model) && if may_download(id@, model@, manifest) {
            &&& phase@ == download_begun::<S>(id@, lock)
            &&& outcome matches ProvisionOutcome::DownloadStarted(receivers) && spawn.ensures(
                (id,),
                receivers,
            )
        } else {
            phase == before && outcome is Handled
        }
}

/// Start a download of `id`, or refuse it and leave the phase as it is. `spawn`
/// is called only for a download that may start; the phase then shows it at
/// once, with nothing received yet.
pub fn start_download<S, R, A: FnOnce(&str) -> ModelAvailability, F: FnOnce(&str) -> R>(
    phase: Phase<S>,
    id: &str,
    manifest: &Manifest,
    lock: &Vec<LockedModel>,
    lookup: A,
    spawn: F,
) -> (r: (Phase<S>, ProvisionOutcome<R>))
    requires
        start_allowed(id, *manifest, lookup, spawn),
    ensures
        start_leads_to(phase, id, *manifest, lock@, lookup, spawn, r.0, r.1),
{
    let availability = lookup(id);
    if manifest.model(id).is_none() {
        return (phase, ProvisionOutcome::Handled);
    }
    if !availability.supported_on_this_os {
        return (phase, ProvisionOutcome::Handled);
    }
    let receivers = spawn(id);
    let begun = Phase::Downloading {
        id: id.to_owned(),
        status: ModelStatus::Downloading {
            received_bytes: 0,
            total_bytes: model_total_bytes(lock, id),
        },
    };
    (begun, ProvisionOutcome::DownloadStarted(receivers))
}

/// A command to download `id`. While a download is in flight it is refused
/// without a look at the model, whichever it names: a second download would leave
/// the first with nobody listening to it. In every other phase the download
/// starts.
pub fn on_download_command<S, R, A: FnOnce(&str) -> ModelAvailability, F: FnOnce(&str) -> R>(
    phase: Phase<S>,
    id: &str,
    manifest: &Manifest,
    lock: &Vec<LockedModel>,
    lookup: A,
    spawn: F,
) -> (r: (Phase<S>, ProvisionOutcome<R>))
    requires
        !(phase is Downloading) ==> start_allowed(id, *manifest, lookup, spawn),
    ensures
        if phase is Downloading {
            r.0 == phase && r.1 is Handled
        } else {
            start_leads_to(phase, id, *manifest, lock@, lookup, spawn, r.0, r.1)
        },
{
    match phase {
        Phase::Downloading { id: in_flight, status } => (
            Phase::Downloading { id: in_flight, status },
            ProvisionOutcome::Handled,
        ),
        idle => start_download(idle, id, manifest, lock, lookup, spawn),
    }
}

/// What became of a command to delete a model.
#[derive(Debug, PartialEq, Eq)]
pub enum Deletion {
    /// Its download is still running.
    RefusedInFlight,
    /// It is the selected model.
    RefusedSelected,
    /// The application did not download it.
    RefusedNotOurs,
    Deleted,
    /// The files could not be removed; the text says why.
    Failed(String),
}

/// The model whose download is in flight, if any.
pub open spec fn in_flight_of<S>(phase: PhaseView<S>) -> Option<Seq<char>> {
    match phase {
        PhaseView::Downloading { id, .. } => Some(id),
        _ => None,
    }
}

/// Whether a model may be deleted: its download is not running, it is not the
/// selected one, and the application downloaded it itself.
pub open spec fn may_delete(
    id: Seq<char>,
    in_flight: Option<Seq<char>>,
    selected: Seq<char>,
    model: ModelAvailabilityView,
) -> bool {
    in_flight != Some(id) && id != selected && is_deletable(model)
}

/// What became of a deletion, given what removing the files would say.
pub open spec fn deletion_is(
    id: Seq<char>,
    in_flight: Option<Seq<char>>,
    selected: Seq<char>,
    model: ModelAvailabilityView,
    removed: Result<(), String>,
) -> Deletion {
    if in_flight == Some(id) {
        Deletion::RefusedInFlight
    } else if id == selected {
        Deletion::RefusedSelected
    } else if !is_deletable(model) {
        Deletion::RefusedNotOurs
    } else {
        match removed {
            Ok(_) => Deletion::Deleted,
            Err(e) => Deletion::Failed(e),
        }
    }
}

/// Whether a deletion is refused whatever is on disk: the model's download is
/// running, or it is the selected one.
pub open spec fn refused_unseen(
    id: Seq<char>,
    in_flight: Option<Seq<char>>,
    selected: Seq<char>,
) -> bool {
    in_flight == Some(id) || id == selected
}

/// Whether deleting `id` may use `lookup` and `remove`.
pub open spec fn deletion_allowed<
    A: FnOnce(&str) -> ModelAvailability,
    F: FnOnce(&str) -> Result<(), String>,
>(id: &str, in_flight: Option<Seq<char>>, selected: Seq<char>, lookup: A, remove: F) -> bool {
    !refused_unseen(id@, in_flight, selected) ==> {
        &&& lookup.requires((id,))
        &&& forall|model: ModelAvailability| #[trigger]
            lookup.ensures((id,), model) && may_delete(id@, in_flight, selected, model@)
                ==> remove.requires((id,))
    }
}

/// Whether deleting `id` leads to this.
pub open spec fn deletion_leads_to<
    A: FnOnce(&str) -> ModelAvailability,
    F: FnOnce(&str) -> Result<(), String>,
>(
    id: &str,
    in_flight: Option<Seq<char>>,
    selected: Seq<char>,
    lookup: A,
    remove: F,
    deletion: Deletion,
) -> bool {
    if in_flight == Some(id@) {
        deletion is RefusedInFlight
    } else if id@ == selected {
        deletion is RefusedSelected
    } else {
        exists|model: ModelAvailability| #[trigger]
            lookup.ensures((id,), model) && if may_delete(id@, in_flight, selected, model@) {
                exists|removed: Result<(), String>| #[trigger]
                    remove.ensures((id,), removed) && deletion == deletion_is(
                        id@,
                        in_flight,
                        selected,
                        model@,
                        removed,
                    )
            } else {
                deletion is RefusedNotOurs
            }
    }
}

/// Delete a model, or refuse to. The refusals are tried in order: a download in
/// flight, the selected model, a model that is not the application's own.
/// `lookup` is called only for the last of them, and `remove` only where none of
/// them holds.
pub fn delete_model<
    A: FnOnce(&str) -> ModelAvailability,
    F: FnOnce(&str) -> Result<(), String>,
>(id: &str, in_flight: Option<&str>, selected: &str, lookup: A, remove: F) -> (r: Deletion)
    requires
        deletion_allowed(id, option_view(in_flight), selected@, lookup, remove),
    ensures
        deletion_leads_to(id, option_view(in_flight), selected@, lookup, remove, r),
{
    if let Some(running) = in_flight {
        if same_text(running, id) {
            return Deletion::RefusedInFlight;
        }
    }
    if same_text(id, selected) {
        return Deletion::RefusedSelected;
    }
    let availability = lookup(id);
    if !availability.deletable() {
        return Deletion::RefusedNotOurs;
    }
    match remove(id) {
        Ok(_) => Deletion::Deleted,
        Err(e) => Deletion::Failed(e),
    }
}

/// The text of an optional string.
pub open spec fn option_view(text: Option<&str>) -> Option<Seq<char>> {
    match text {
        Some(t) => Some(t@),
        None => None,
    }
}

/// What the user is told of a deletion: nothing, unless removing the files
/// failed.
pub open spec fn deletion_report(deletion: Deletion, id: Seq<char>) -> Option<DictationEventView> {
    match deletion {
        Deletion::Failed(e) => Some(
            DictationEventView::Error {
                message: "Could not delete "@ + id + ": "@ + e@,
                recoverable: true,
                kind: ErrorKind::Other,
            },
        ),
        _ => None,
    }
}

/// What the user is told of a deletion: nothing, unless removing the files
/// failed.
pub fn deletion_event(deletion: &Deletion, id: &str) -> (r: Option<DictationEvent>)
    ensures
        event_view(r) == deletion_report(*deletion, id@),
{
    match deletion {
        Deletion::Failed(e) => {
            let mut message = join3("Could not delete ", id, ": ");
            message.append(e.as_str());
            Some(DictationEvent::Error { message, recoverable: true, kind: ErrorKind::Other })
        },
        _ => None,
    }
}

/// An optional event as a mathematical value.
pub open spec fn event_view(event: Option<DictationEvent>) -> Option<DictationEventView> {
    match event {
        Some(e) => Some(e@),
        None => None,
    }
}

/// A command to delete `id`. No phase changes on it: the selected model is never
/// deleted.
pub fn on_delete_command<
    S,
    A: FnOnce(&str) -> ModelAvailability,
    F: FnOnce(&str) -> Result<(), String>,
>(
    phase: Phase<S>,
    id: &str,
    persisted: &Option<String>,
    manifest: &Manifest,
    lookup: A,
    remove: F,
) -> (r: (Phase<S>, Deletion))
    requires
        deletion_allowed(
            id,
            in_flight_of(phase@),
            selected_of(*persisted, *manifest),
            lookup,
            remove,
        ),
    ensures
        r.0 == phase,
        deletion_leads_to(
            id,
            in_flight_of(phase@),
            selected_of(*persisted, *manifest),
            lookup,
            remove,
            r.1,
        ),
{
    let selected = selected_model_id(persisted, manifest);
    let deletion = match &phase {
        Phase::Downloading { id: running, .. } => delete_model(
            id,
            Some(running.as_str()),
            selected.as_str(),
            lookup,
            remove,
        ),
        _ => delete_model(id, None, selected.as_str(), lookup, remove),
    };
    (phase, deletion)
}

/// A progress tick of a download. Only a downloading phase takes it in; in any
/// other phase it is a straggler of a download that is over.
pub fn on_download_progress<S>(phase: Phase<S>, status: ModelStatus) -> (r: Phase<S>)
    ensures
        r@ == progressed(phase@, status@),
{
    match phase {
        Phase::Downloading { id, .. } => Phase::Downloading { id, status },
        other => other,
    }
}

/// The phase after a progress tick.
pub open spec fn progressed<S>(phase: PhaseView<S>, status: ModelStatusView) -> PhaseView<S> {
    match phase {
        PhaseView::Downloading { id, .. } => PhaseView::Downloading { id, status },
        _ => phase,
    }
}

/// Let go of a phase, and with it of the session it may hold: a session ends
/// when it is dropped.
fn end_phase<S>(phase: Phase<S>)
{
}

/// What a selection did to the persisted choice.
#[derive(Debug, PartialEq, Eq)]
pub enum SettingWrite {
    /// Nothing was saved.
    Untouched,
    /// The choice was saved; `now` is the setting as it reads since.
    Saved { now: Option<String> },
}

/// A command to make `id` the active model. A model that this build does not
/// ship is refused. Otherwise `persist` saves the choice first, in every phase.
/// While a download is in flight that is all: what is selected by then is loaded
/// when the download ends. In every other phase the session at hand ends and the
/// selected model is loaded.
pub fn on_select_model_command<
    S,
    R,
    P: FnOnce(&str) -> Option<String>,
    A: FnOnce(&str) -> ModelAvailability,
    L: FnOnce() -> Option<S>,
>(phase: Phase<S>, id: &str, manifest: &Manifest, persist: P, lookup: A, load: L) -> (r: (
    Phase<S>,
    ProvisionOutcome<R>,
    SettingWrite,
))
    requires
        manifest.ships(id@) ==> persist.requires((id,)),
        manifest.ships(id@) && !(phase is Downloading) ==> forall|now: Option<String>| #[trigger]
            persist.ensures((id,), now) ==> reload_allowed::<S, A, L>(
                selected_of(now, *manifest),
                lookup,
                load,
            ),
    ensures
        if manifest.ships(id@) {
            &&& r.2 matches SettingWrite::Saved { now } && persist.ensures((id,), now) && (if phase
                is Downloading {
                r.0 == phase && r.1 is Handled
            } else {
                &&& r.1 is ReloadedBlocking
                &&& !(r.0 is Downloading)
                &&& reload_leads_to(selected_of(now, *manifest), *manifest, lookup, load, r.0@)
            })
        } else {
            r.0 == phase && r.1 is Handled && r.2 is Untouched
        },
{
    if manifest.model(id).is_none() {
        return (phase, ProvisionOutcome::Handled, SettingWrite::Untouched);
    }
    let now = persist(id);
    match phase {
        Phase::Downloading { id: in_flight, status } => (
            Phase::Downloading { id: in_flight, status },
            ProvisionOutcome::Handled,
            SettingWrite::Saved { now },
        ),
        other => {
            end_phase(other);
            let next = load_selected_model(&now, manifest, lookup, load);
            (next, ProvisionOutcome::ReloadedBlocking, SettingWrite::Saved { now })
        },
    }
}

/// How a download ended.
#[derive(Debug, PartialEq, Eq)]
pub enum DownloadOutcome {
    Finished,
    Failed(String),
}

/// The end of a download. Only a downloading phase acts on it. A finished
/// download loads the selected model, which is not necessarily the one that was
/// downloaded, and trusts nothing but its availability; a failed one says so on
/// the row of the model that was being downloaded.
pub fn on_download_completed<
    S,
    A: FnOnce(&str) -> ModelAvailability,
    L: FnOnce() -> Option<S>,
>(
    phase: Phase<S>,
    outcome: DownloadOutcome,
    persisted: &Option<String>,
    manifest: &Manifest,
    lookup: A,
    load: L,
) -> (r: Phase<S>)
    requires
        phase is Downloading && outcome is Finished ==> reload_allowed::<S, A, L>(
            selected_of(*persisted, *manifest),
            lookup,
            load,
        ),
    ensures
        completion_leads_to(
            phase@,
            outcome,
            selected_of(*persisted, *manifest),
            *manifest,
            lookup,
            load,
            r@,
        ),
        match (phase@, outcome) {
            (PhaseView::Downloading { .. }, DownloadOutcome::Finished) => {
                &&& !(r is Downloading)
                &&& reload_leads_to(selected_of(*persisted, *manifest), *manifest, lookup, load, r@)
            },
            (PhaseView::Downloading { id, .. }, DownloadOutcome::Failed(message)) => r@
                == failed_download::<S>(id, message@),
            _ => r == phase,
        },
{
    match phase {
        Phase::Downloading { id, .. } => match outcome {
            DownloadOutcome::Finished => load_selected_model(persisted, manifest, lookup, load),
            DownloadOutcome::Failed(message) => Phase::NeedsModel {
                id,
                status: ModelStatus::Failed { message },
            },
        },
        other => other,
    }
}

/// The phase after the download of `id` failed.
pub open spec fn failed_download<S>(id: Seq<char>, message: Seq<char>) -> PhaseView<S> {
    PhaseView::NeedsModel { id, status: ModelStatusView::Failed { message } }
}

/// What handling one [`ProvisionCommand`] did.
#[derive(Debug)]
pub struct ProvisionStep<S, R> {
    pub phase: Phase<S>,
    pub outcome: ProvisionOutcome<R>,
    pub setting: SettingWrite,
    /// What is left to tell the user.
    pub event: Option<DictationEvent>,
}

/// Whether a command to download `id` may use `lookup` and `spawn`.
pub open spec fn download_allowed<S, R, A: FnOnce(&str) -> ModelAvailability, F: FnOnce(&str) -> R>(
    phase: PhaseView<S>,
    id: Seq<char>,
    manifest: Manifest,
    lookup: A,
    spawn: F,
) -> bool {
    !(phase is Downloading) ==> forall|k: &str|
        k@ == id ==> #[trigger] start_allowed(k, manifest, lookup, spawn)
}

/// Whether `step` is what a command to download `id` leads to.
pub open spec fn download_leads_to<
    S,
    R,
    A: FnOnce(&str) -> ModelAvailability,
    F: FnOnce(&str) -> R,
>(
    phase: Phase<S>,
    id: Seq<char>,
    manifest: Manifest,
    lock: Seq<LockedModel>,
    lookup: A,
    spawn: F,
    step: ProvisionStep<S, R>,
) -> bool {
    if phase is Downloading {
        step.phase == phase && step.outcome is Handled
    } else {
        exists|k: &str| #[trigger]
            start_leads_to(
                phase,
                k,
                manifest,
                lock,
                lookup,
                spawn,
                step.phase,
                step.outcome,
            ) && k@ == id
    }
}

/// Whether a command to delete `id` may use `lookup` and `remove`.
pub open spec fn delete_allowed<
    S,
    A: FnOnce(&str) -> ModelAvailability,
    D: FnOnce(&str) -> Result<(), String>,
>(phase: PhaseView<S>, id: Seq<char>, selected: Seq<char>, lookup: A, remove: D) -> bool {
    forall|k: &str|
        k@ == id ==> #[trigger] deletion_allowed(k, in_flight_of(phase), selected, lookup, remove)
}

/// Whether `event` is what the user is told of a command to delete `id`.
pub open spec fn delete_reports<
    S,
    A: FnOnce(&str) -> ModelAvailability,
    D: FnOnce(&str) -> Result<(), String>,
>(
    phase: PhaseView<S>,
    id: Seq<char>,
    selected: Seq<char>,
    lookup: A,
    remove: D,
    event: Option<DictationEventView>,
) -> bool {
    exists|k: &str, deletion: Deletion| #[trigger]
        deletion_leads_to(k, in_flight_of(phase), selected, lookup, remove, deletion) && k@ == id
            && event == deletion_report(deletion, id)
}

/// Whether a command to select `id` may use `persist`, `lookup` and `load`.
pub open spec fn select_allowed<
    S,
    P: FnOnce(&str) -> Option<String>,
    A: FnOnce(&str) -> ModelAvailability,
    L: FnOnce() -> Option<S>,
>(phase: PhaseView<S>, id: Seq<char>, manifest: Manifest, persist: P, lookup: A, load: L) -> bool {
    manifest.ships(id) ==> {
        &&& forall|k: &str| k@ == id ==> #[trigger] persist.requires((k,))
        &&& !(phase is Downloading) ==> forall|k: &str, now: Option<String>| #[trigger]
            persist.ensures((k,), now) && k@ == id ==> reload_allowed::<S, A, L>(
                selected_of(now, manifest),
                lookup,
                load,
            )
    }
}

/// Whether `step` is what a command to select `id` leads to.
pub open spec fn select_leads_to<
    S,
    R,
    P: FnOnce(&str) -> Option<String>,
    A: FnOnce(&str) -> ModelAvailability,
    L: FnOnce() -> Option<S>,
>(
    phase: Phase<S>,
    id: Seq<char>,
    manifest: Manifest,
    persist: P,
    lookup: A,
    load: L,
    step: ProvisionStep<S, R>,
) -> bool {
    if manifest.ships(id) {
        &&& step.setting matches SettingWrite::Saved { now } && (exists|k: &str| #[trigger]
            persist.ensures((k,), now) && k@ == id) && (if phase is Downloading {
            step.phase == phase && step.outcome is Handled
        } else {
            &&& step.outcome is ReloadedBlocking
            &&& !(step.phase is Downloading)
            &&& reload_leads_to(selected_of(now, manifest), manifest, lookup, load, step.phase@)
        })
    } else {
        step.phase == phase && step.outcome is Handled && step.setting is Untouched
    }
}

/// Whether handling `command` may use what it is given.
pub open spec fn provision_allowed<
    S,
    R,
    A: FnOnce(&str) -> ModelAvailability,
    F: FnOnce(&str) -> R,
    D: FnOnce(&str) -> Result<(), String>,
    P: FnOnce(&str) -> Option<String>,
    L: FnOnce() -> Option<S>,
>(
    phase: PhaseView<S>,
    command: ProvisionCommandView,
    selected: Seq<char>,
    manifest: Manifest,
    lookup: A,
    spawn: F,
    remove: D,
    persist: P,
    load: L,
) -> bool {
    match command {
        ProvisionCommandView::Download(id) => download_allowed::<S, R, A, F>(
            phase,
            id,
            manifest,
            lookup,
            spawn,
        ),
        ProvisionCommandView::Delete(id) => delete_allowed(phase, id, selected, lookup, remove),
        ProvisionCommandView::SelectModel(id) => select_allowed(
            phase,
            id,
            manifest,
            persist,
            lookup,
            load,
        ),
    }
}

/// Whether `step` is what `command` leads to.
pub open spec fn provision_leads_to<
    S,
    R,
    A: FnOnce(&str) -> ModelAvailability,
    F: FnOnce(&str) -> R,
    D: FnOnce(&str) -> Result<(), String>,
    P: FnOnce(&str) -> Option<String>,
    L: FnOnce() -> Option<S>,
>(
    phase: Phase<S>,
    command: ProvisionCommandView,
    selected: Seq<char>,
    manifest: Manifest,
    lock: Seq<LockedModel>,
    lookup: A,
    spawn: F,
    remove: D,
    persist: P,
    load: L,
    step: ProvisionStep<S, R>,
) -> bool {
    match command {
        ProvisionCommandView::Download(id) => {
            &&& download_leads_to(phase, id, manifest, lock, lookup, spawn, step)
            &&& step.setting is Untouched
            &&& step.event is None
        },
        ProvisionCommandView::Delete(id) => {
            &&& step.phase == phase
            &&& step.outcome is Handled
            &&& step.setting is Untouched
            &&& delete_reports(phase@, id, selected, lookup, remove, event_view(step.event))
        },
        ProvisionCommandView::SelectModel(id) => {
            &&& select_leads_to(phase, id, manifest, persist, lookup, load, step)
            &&& step.event is None
        },
    }
}

/// Handle one command of the settings tab, whatever the phase.
///
/// `lookup` reads a model's availability, `spawn` starts a download, `remove`
/// deletes a model's files, `persist` saves a choice and reads the setting back,
/// and `load` loads the engine. Each is used only where the command and the
/// phase call for it.
pub fn on_provision_command<
    S,
    R,
    A: FnOnce(&str) -> ModelAvailability,
    F: FnOnce(&str) -> R,
    D: FnOnce(&str) -> Result<(), String>,
    P: FnOnce(&str) -> Option<String>,
    L: FnOnce() -> Option<S>,
>(
    phase: Phase<S>,
    command: ProvisionCommand,
    persisted: &Option<String>,
    manifest: &Manifest,
    lock: &Vec<LockedModel>,
    lookup: A,
    spawn: F,
    remove: D,
    persist: P,
    load: L,
) -> (r: ProvisionStep<S, R>)
    requires
        provision_allowed::<S, R, A, F, D, P, L>(
            phase@,
            command@,
            selected_of(*persisted, *manifest),
            *manifest,
            lookup,
            spawn,
            remove,
            persist,
            load,
        ),
    ensures
        provision_leads_to(
            phase,
            command@,
            selected_of(*persisted, *manifest),
            *manifest,
            lock@,
            lookup,
            spawn,
            remove,
            persist,
            load,
            r,
        ),
{
    match command {
        ProvisionCommand::Download(id) => {
            let (next, outcome) = on_download_command(
                phase,
                id.as_str(),
                manifest,
                lock,
                lookup,
                spawn,
            );
            ProvisionStep { phase: next, outcome, setting: SettingWrite::Untouched, event: None }
        },
        ProvisionCommand::Delete(id) => {
            let key = id.as_str();
            let (next, deletion) = on_delete_command(
                phase,
                key,
                persisted,
                manifest,
                lookup,
                remove,
            );
            let event = deletion_event(&deletion, key);
            ProvisionStep {
                phase: next,
                outcome: ProvisionOutcome::Handled,
                setting: SettingWrite::Untouched,
                event,
            }
        },
        ProvisionCommand::SelectModel(id) => {
            let (next, outcome, setting) = on_select_model_command(
                phase,
                id.as_str(),
                manifest,
                persist,
                lookup,
                load,
            );
            ProvisionStep { phase: next, outcome, setting, event: None }
        },
    }
}

/// What the engine's load reports: to the main thread whether it succeeded, and
/// to the overlay why it did not.
pub fn engine_report(loaded: Result<(), String>) -> (r: (UiCommand, Option<DictationEvent>))
    ensures
        (r.0@, event_view(r.1)) == engine_news(
            match loaded {
                Ok(_) => None,
                Err(e) => Some(e@),
            },
        ),
        match loaded {
            Ok(_) => r.0@ == UiCommandView::EngineReady(None) && r.1 is None,
            Err(e) => {
                &&& r.0@ == UiCommandView::EngineReady(Some(e@))
                &&& event_view(r.1) == Some(
                    DictationEventView::Error {
                        message: "Engine unavailable: "@ + e@,
                        recoverable: false,
                        kind: ErrorKind::Other,
                    },
                )
            },
        },
{
    match loaded {
        Ok(_) => (UiCommand::EngineReady(Ok(())), None),
        Err(e) => {
            let message = join2("Engine unavailable: ", e.as_str());
            (
                UiCommand::EngineReady(Err(e)),
                Some(DictationEvent::Error { message, recoverable: false, kind: ErrorKind::Other }),
            )
        },
    }
}

/// The engine family that the manifest gives for a model; none for a model that
/// this build does not ship.
pub fn engine_backend(manifest: &Manifest, id: &str) -> (r: Option<Backend>)
    ensures
        r == match manifest.spec_model(id@) {
            Some(model) => Some(model.backend),
            None => None,
        },
        r is Some <==> manifest.ships(id@),
{
    match manifest.model(id) {
        Some(model) => Some(model.backend),
        None => None,
    }
}

/// An engine is only ever loaded for a model that this system supports and
/// whose files are ready.
pub proof fn only_a_cleared_model_becomes_ready<S, L: FnOnce() -> Option<S>>(
    model: ModelAvailabilityView,
    manifest: Manifest,
    load: L,
    phase: PhaseView<S>,
)
    requires
        leads_to(model, manifest, load, phase),
        phase is Ready || phase is EngineFailed,
    ensures
        cleared_to_load(model),
{
}

/// The UI is told that the model is ready exactly when there is a session to
/// dictate with.
pub proof fn ready_is_shown_exactly_when_a_session_lives<S, L: FnOnce() -> Option<S>>(
    model: ModelAvailabilityView,
    manifest: Manifest,
    load: L,
    phase: PhaseView<S>,
)
    requires
        leads_to(model, manifest, load, phase),
    ensures
        status_of_phase(phase) is Ready <==> phase is Ready,
{
}

/// A model that is not being downloaded or checked never leaves the loop
/// showing a download: what it waits for is a missing or a failed model.
pub proof fn a_resting_model_needs_a_download_or_failed<S, L: FnOnce() -> Option<S>>(
    model: ModelAvailabilityView,
    manifest: Manifest,
    load: L,
    phase: PhaseView<S>,
)
    requires
        leads_to(model, manifest, load, phase),
        !(model.status is Downloading) && !(model.status is Verifying),
    ensures
        phase matches PhaseView::NeedsModel { id, status } ==> id == model.id && (status is Missing
            || status is Failed),
{
}

/// The selected model is one that this build ships, as long as the default is.
pub proof fn the_selected_model_is_shipped(persisted: Option<String>, manifest: Manifest)
    requires
        manifest.ships(manifest.default_model@),
    ensures
        manifest.ships(selected_of(persisted, manifest)),
{
}

/// While a download is in flight no command of the settings tab touches it: the
/// phase stays as it is and no second download starts.
pub proof fn a_download_in_flight_is_never_replaced<
    S,
    R,
    A: FnOnce(&str) -> ModelAvailability,
    F: FnOnce(&str) -> R,
    D: FnOnce(&str) -> Result<(), String>,
    P: FnOnce(&str) -> Option<String>,
    L: FnOnce() -> Option<S>,
>(
    phase: Phase<S>,
    command: ProvisionCommandView,
    selected: Seq<char>,
    manifest: Manifest,
    lock: Seq<LockedModel>,
    lookup: A,
    spawn: F,
    remove: D,
    persist: P,
    load: L,
    step: ProvisionStep<S, R>,
)
    requires
        phase is Downloading,
        provision_leads_to(
            phase,
            command,
            selected,
            manifest,
            lock,
            lookup,
            spawn,
            remove,
            persist,
            load,
            step,
        ),
    ensures
        step.phase == phase,
        step.outcome is Handled,
{
}

/// A phase shows a download exactly if one was just started or was already in
/// flight.
pub proof fn downloading_means_a_download_was_started<
    S,
    R,
    A: FnOnce(&str) -> ModelAvailability,
    F: FnOnce(&str) -> R,
    D: FnOnce(&str) -> Result<(), String>,
    P: FnOnce(&str) -> Option<String>,
    L: FnOnce() -> Option<S>,
>(
    phase: Phase<S>,
    command: ProvisionCommandView,
    selected: Seq<char>,
    manifest: Manifest,
    lock: Seq<LockedModel>,
    lookup: A,
    spawn: F,
    remove: D,
    persist: P,
    load: L,
    step: ProvisionStep<S, R>,
)
    requires
        provision_leads_to(
            phase,
            command,
            selected,
            manifest,
            lock,
            lookup,
            spawn,
            remove,
            persist,
            load,
            step,
        ),
    ensures
        step.phase is Downloading <==> (phase is Downloading || step.outcome is DownloadStarted),
{
}

/// A progress tick never starts a download and never changes which model is
/// being downloaded: one that arrives late changes nothing.
pub proof fn a_late_tick_never_resurrects_a_download<S>(
    phase: PhaseView<S>,
    status: ModelStatusView,
)
    ensures
        in_flight_of(progressed(phase, status)) == in_flight_of(phase),
        !(phase is Downloading) ==> progressed(phase, status) == phase,
{
}

/// Neither the selected model, nor the one being downloaded, nor one that the
/// application did not download is ever deleted.
pub proof fn only_own_idle_models_are_deleted(
    id: Seq<char>,
    in_flight: Option<Seq<char>>,
    selected: Seq<char>,
    model: ModelAvailabilityView,
    removed: Result<(), String>,
)
    requires
        deletion_is(id, in_flight, selected, model, removed) is Deleted || deletion_is(
            id,
            in_flight,
            selected,
            model,
            removed,
        ) is Failed,
    ensures
        id != selected,
        in_flight != Some(id),
        model.source == Some(ModelSource::UserData),
{
}

/// The phase changes at most the status of its own model's row; every other row
/// is shown as it was read from disk.
pub proof fn a_phase_changes_only_its_own_row<S>(
    phase: PhaseView<S>,
    models: Seq<ModelAvailabilityView>,
    i: int,
)
    requires
        0 <= i < models.len(),
    ensures
        rows_of(phase, models).len() == models.len(),
        rows_of(phase, models)[i] == (ModelAvailabilityView {
            status: rows_of(phase, models)[i].status,
            ..models[i]
        }),
        (match row_override(phase) {
            Some((id, _)) => models[i].id != id,
            None => true,
        }) ==> rows_of(phase, models)[i] == models[i],
{
}

/// The status in the menu bar and the row in the model list never disagree about
/// the model that the phase is about.
pub proof fn menu_bar_and_list_agree<S>(
    phase: PhaseView<S>,
    models: Seq<ModelAvailabilityView>,
    i: int,
)
    requires
        0 <= i < models.len(),
        row_override(phase) matches Some((id, _)) && models[i].id == id,
    ensures
        rows_of(phase, models)[i].status == status_of_phase(phase),
{
}

/// Selecting a model never downloads anything, whatever the phase: where the
/// engine could not be loaded, selecting the model again tries that again and
/// nothing else.
pub proof fn selecting_never_downloads<
    S,
    R,
    A: FnOnce(&str) -> ModelAvailability,
    F: FnOnce(&str) -> R,
    D: FnOnce(&str) -> Result<(), String>,
    P: FnOnce(&str) -> Option<String>,
    L: FnOnce() -> Option<S>,
>(
    phase: Phase<S>,
    id: Seq<char>,
    selected: Seq<char>,
    manifest: Manifest,
    lock: Seq<LockedModel>,
    lookup: A,
    spawn: F,
    remove: D,
    persist: P,
    load: L,
    step: ProvisionStep<S, R>,
)
    requires
        provision_leads_to(
            phase,
            ProvisionCommandView::SelectModel(id),
            selected,
            manifest,
            lock,
            lookup,
            spawn,
            remove,
            persist,
            load,
            step,
        ),
    ensures
        !(step.outcome is DownloadStarted),
        phase is EngineFailed && manifest.ships(id) ==> step.outcome is ReloadedBlocking,
{
}

/// The list agrees with the status that is sent with it: for a phase that names a
/// model and a status, needed or downloading, the status sent is that status, and
/// so is that of every row of that model. Every other row, and everything but the
/// status of a row, is as it was read from disk.
pub proof fn the_list_agrees_with_the_status<S>(
    phase: PhaseView<S>,
    models: Seq<ModelAvailabilityView>,
    rows: Seq<ModelAvailabilityView>,
    i: int,
)
    requires
        broadcast_of(phase, models).contains(UiCommandView::ModelList(rows)),
        0 <= i < models.len(),
    ensures
        rows.len() == models.len(),
        rows[i].id == models[i].id,
        rows[i].display_name == models[i].display_name,
        rows[i].source == models[i].source,
        rows[i].total_bytes == models[i].total_bytes,
        rows[i].supported_on_this_os == models[i].supported_on_this_os,
        match phase {
            PhaseView::NeedsModel { id, status } => {
                &&& broadcast_of(phase, models)[0] == UiCommandView::ModelStatus(status)
                &&& rows[i].status == if models[i].id == id {
                    status
                } else {
                    models[i].status
                }
            },
            PhaseView::Downloading { id, status } => {
                &&& broadcast_of(phase, models)[0] == UiCommandView::ModelStatus(status)
                &&& rows[i].status == if models[i].id == id {
                    status
                } else {
                    models[i].status
                }
            },
            _ => rows[i].status == models[i].status,
        },
{
}

/// The UI is told exactly two things of a phase, the status first: the status of
/// the model that the phase names, why the engine failed, or that all is ready.
pub proof fn a_phase_is_told_by_its_status<S>(
    phase: PhaseView<S>,
    models: Seq<ModelAvailabilityView>,
)
    ensures
        broadcast_of(phase, models).len() == 2,
        broadcast_of(phase, models)[1] is ModelList,
        broadcast_of(phase, models)[0] matches UiCommandView::ModelStatus(told) && {
            &&& phase is Ready ==> told is Ready
            &&& phase matches PhaseView::EngineFailed(message) ==> told
                == (ModelStatusView::Failed { message })
            &&& phase matches PhaseView::NeedsModel { status, .. } ==> told == status
            &&& phase matches PhaseView::Downloading { status, .. } ==> told == status
            &&& told == status_of_phase(phase)
        },
        forall|id: Seq<char>, status: ModelStatusView|
            (phase == (PhaseView::<S>::NeedsModel { id, status }) || phase == (PhaseView::<S>::Downloading {
                id,
                status,
            })) <==> row_override(phase) == Some((id, status)),
{
}

/// A choice counts exactly as long as this build ships it; without one, and with
/// one that is not shipped, the manifest's default is used.
pub proof fn a_choice_counts_while_it_is_shipped(persisted: Option<String>, manifest: Manifest)
    ensures
        persisted matches Some(id) && (exists|i: int|
            0 <= i < manifest.models@.len() && (#[trigger] manifest.models@[i]).id@ == id@)
            ==> selected_of(persisted, manifest) == persisted->Some_0@,
        persisted matches Some(id) && (forall|i: int|
            0 <= i < manifest.models@.len() ==> (#[trigger] manifest.models@[i]).id@ != id@)
            ==> selected_of(persisted, manifest) == manifest.default_model@,
        persisted is None ==> selected_of(persisted, manifest) == manifest.default_model@,
{
}

/// Where a model leads: the engine is loaded exactly if this system supports the
/// model and its files are ready, and the session that the load gave lives on; a
/// load that gave none is an engine failure. Otherwise the phase is about this
/// very model, and says of it what is known of its files, or, where the system is
/// too old, that it failed, by name.
pub proof fn where_a_model_leads<S, L: FnOnce() -> Option<S>>(
    model: ModelAvailabilityView,
    manifest: Manifest,
    load: L,
    phase: PhaseView<S>,
)
    requires
        leads_to(model, manifest, load, phase),
    ensures
        model.supported_on_this_os && model.status is Ready ==> exists|loaded: Option<S>|
            #[trigger] load.ensures((), loaded) && match loaded {
                Some(session) => phase == PhaseView::Ready(session),
                None => phase == PhaseView::<S>::EngineFailed(
                    "the model is present but the engine failed to load — see the log for details"@,
                ),
            },
        model.supported_on_this_os && !(model.status is Ready) ==> phase == (PhaseView::<S>::NeedsModel {
            id: model.id,
            status: model.status,
        }),
        !model.supported_on_this_os ==> (phase matches PhaseView::NeedsModel { id, status } && id
            == model.id && (status matches ModelStatusView::Failed { message }
            && model.display_name.is_prefix_of(message) && message.len()
            > model.display_name.len())),
{
    reveal_strlit(" needs macOS ");
    reveal_strlit(" or later.");
    reveal_strlit(" is not supported on this Mac.");
    let text = unsupported_text(model, manifest);
    assert(model.display_name =~= text.take(model.display_name.len() as int));
}

/// A model that the system is too old for names the oldest version that would do,
/// as the manifest's first entry for the model gives it.
pub proof fn a_too_old_system_is_told_the_version(
    model: ModelAvailabilityView,
    manifest: Manifest,
    i: int,
)
    requires
        0 <= i < manifest.models@.len(),
        manifest.models@[i].id@ == model.id,
        forall|j: int| 0 <= j < i ==> (#[trigger] manifest.models@[j]).id@ != model.id,
    ensures
        unsupported_text(model, manifest) == model.display_name + " needs macOS "@
            + manifest.models@[i].min_macos@ + " or later."@,
{
    crate::domain::model_position_is_first(manifest.models@, model.id);
}

/// A model that the manifest does not know is said not to be supported, by name.
pub proof fn an_unknown_model_is_said_not_to_be_supported(
    model: ModelAvailabilityView,
    manifest: Manifest,
)
    requires
        forall|j: int|
            0 <= j < manifest.models@.len() ==> (#[trigger] manifest.models@[j]).id@ != model.id,
    ensures
        unsupported_text(model, manifest) == model.display_name
            + " is not supported on this Mac."@,
{
    crate::domain::model_position_is_first(manifest.models@, model.id);
}

/// What becomes of a deletion, and why: a download in flight comes before the
/// selection, and both before a look at who put the model there; and where the
/// files were removed, whether that worked, and if not why not.
pub proof fn a_deletion_says_what_became_of_it<
    A: FnOnce(&str) -> ModelAvailability,
    F: FnOnce(&str) -> Result<(), String>,
>(
    id: &str,
    in_flight: Option<Seq<char>>,
    selected: Seq<char>,
    lookup: A,
    remove: F,
    deletion: Deletion,
)
    requires
        deletion_leads_to(id, in_flight, selected, lookup, remove, deletion),
    ensures
        deletion is RefusedInFlight <==> in_flight == Some(id@),
        deletion is RefusedSelected <==> in_flight != Some(id@) && id@ == selected,
        in_flight != Some(id@) && id@ != selected ==> exists|model: ModelAvailability| #[trigger]
            lookup.ensures((id,), model) && if model.source == Some(ModelSource::UserData) {
                exists|removed: Result<(), String>| #[trigger]
                    remove.ensures((id,), removed) && match removed {
                        Ok(_) => deletion is Deleted,
                        Err(e) => deletion == Deletion::Failed(e),
                    }
            } else {
                deletion is RefusedNotOurs
            },
{
}

/// The size of a download is that of the model's first entry in the pinned list,
/// and 0 where it has none.
pub proof fn the_size_is_that_of_the_first_entry(lock: Seq<LockedModel>, id: Seq<char>)
    ensures
        forall|i: int|
            0 <= i < lock.len() && (#[trigger] lock[i]).id@ == id && (forall|j: int|
                0 <= j < i ==> (#[trigger] lock[j]).id@ != id) ==> locked_bytes(lock, id)
                == lock[i].total_bytes,
        (forall|j: int| 0 <= j < lock.len() ==> (#[trigger] lock[j]).id@ != id) ==> locked_bytes(
            lock,
            id,
        ) == 0,
    decreases lock.len(),
{
    if lock.len() > 0 && lock[0].id@ != id {
        let rest = lock.drop_first();
        the_size_is_that_of_the_first_entry(rest, id);
        assert forall|i: int|
            0 <= i < lock.len() && (#[trigger] lock[i]).id@ == id && (forall|j: int|
                0 <= j < i ==> (#[trigger] lock[j]).id@ != id) implies locked_bytes(lock, id)
            == lock[i].total_bytes by {
            assert(rest[i - 1] == lock[i]);
            assert forall|j: int| 0 <= j < i - 1 implies (#[trigger] rest[j]).id@ != id by {
                assert(rest[j] == lock[j + 1]);
            }
        }
        if forall|j: int| 0 <= j < lock.len() ==> (#[trigger] lock[j]).id@ != id {
            assert forall|j: int| 0 <= j < rest.len() implies (#[trigger] rest[j]).id@ != id by {
                assert(rest[j] == lock[j + 1]);
            }
        }
    }
}

/// A command to download a model starts a download of that very model, and shows
/// it at once with nothing received of the pinned size, exactly if none is in
/// flight, this build ships the model and this system supports it. Otherwise it
/// changes nothing. It never touches the setting and tells the user nothing.
pub proof fn a_download_starts_exactly_if_it_may<
    S,
    R,
    A: FnOnce(&str) -> ModelAvailability,
    F: FnOnce(&str) -> R,
    D: FnOnce(&str) -> Result<(), String>,
    P: FnOnce(&str) -> Option<String>,
    L: FnOnce() -> Option<S>,
>(
    phase: Phase<S>,
    id: Seq<char>,
    selected: Seq<char>,
    manifest: Manifest,
    lock: Seq<LockedModel>,
    lookup: A,
    spawn: F,
    remove: D,
    persist: P,
    load: L,
    step: ProvisionStep<S, R>,
)
    requires
        provision_leads_to(
            phase,
            ProvisionCommandView::Download(id),
            selected,
            manifest,
            lock,
            lookup,
            spawn,
            remove,
            persist,
            load,
            step,
        ),
    ensures
        step.setting is Untouched && step.event is None,
        phase is Downloading || !manifest.ships(id) ==> step.phase == phase
            && step.outcome is Handled,
        !(phase is Downloading) && manifest.ships(id) ==> exists|k: &str, model: ModelAvailability|
            #[trigger] lookup.ensures((k,), model) && k@ == id && if model.supported_on_this_os {
                &&& step.phase@ == (PhaseView::<S>::Downloading {
                    id,
                    status: ModelStatusView::Downloading {
                        received_bytes: 0,
                        total_bytes: locked_bytes(lock, id),
                    },
                })
                &&& step.outcome matches ProvisionOutcome::DownloadStarted(receivers)
                    && spawn.ensures((k,), receivers)
            } else {
                step.phase == phase && step.outcome is Handled
            },
{
    if !(phase is Downloading) {
        let k = choose|k: &str| #[trigger]
            start_leads_to(
                phase,
                k,
                manifest,
                lock,
                lookup,
                spawn,
                step.phase,
                step.outcome,
            ) && k@ == id;
        let model = choose|model: ModelAvailability| #[trigger]
            lookup.ensures((k,), model) && if may_download(k@, model@, manifest) {
                &&& step.phase@ == download_begun::<S>(k@, lock)
                &&& step.outcome matches ProvisionOutcome::DownloadStarted(receivers)
                    && spawn.ensures((k,), receivers)
            } else {
                step.phase == phase && step.outcome is Handled
            };
        assert(lookup.ensures((k,), model));
    }
}

/// A command to delete a model changes neither the phase nor the setting. The
/// files of the model that is selected, of one that is being downloaded and of one
/// that the application did not download are left alone, without a word. Those of
/// any other model are removed, and the user hears of it exactly if that fails,
/// with the model's name and the reason.
pub proof fn a_deletion_is_done_exactly_if_it_may<
    S,
    R,
    A: FnOnce(&str) -> ModelAvailability,
    F: FnOnce(&str) -> R,
    D: FnOnce(&str) -> Result<(), String>,
    P: FnOnce(&str) -> Option<String>,
    L: FnOnce() -> Option<S>,
>(
    phase: Phase<S>,
    id: Seq<char>,
    selected: Seq<char>,
    manifest: Manifest,
    lock: Seq<LockedModel>,
    lookup: A,
    spawn: F,
    remove: D,
    persist: P,
    load: L,
    step: ProvisionStep<S, R>,
)
    requires
        provision_leads_to(
            phase,
            ProvisionCommandView::Delete(id),
            selected,
            manifest,
            lock,
            lookup,
            spawn,
            remove,
            persist,
            load,
            step,
        ),
    ensures
        step.phase == phase && step.outcome is Handled && step.setting is Untouched,
        id == selected ==> step.event is None,
        (phase matches Phase::Downloading { id: running, .. } && running@ == id) ==> step.event is None,
        id != selected && !(phase matches Phase::Downloading { id: running, .. } && running@ == id)
            ==> exists|k: &str, model: ModelAvailability| #[trigger]
            lookup.ensures((k,), model) && k@ == id && if model.source == Some(
                ModelSource::UserData,
            ) {
                exists|removed: Result<(), String>| #[trigger]
                    remove.ensures((k,), removed) && match removed {
                        Ok(_) => step.event is None,
                        Err(e) => step.event matches Some(
                            DictationEvent::Error { message, recoverable, kind },
                        ) && recoverable && kind == ErrorKind::Other && message@
                            == "Could not delete "@ + id + ": "@ + e@,
                    }
            } else {
                step.event is None
            },
{
    let (k, deletion) = choose|k: &str, deletion: Deletion| #[trigger]
        deletion_leads_to(k, in_flight_of(phase@), selected, lookup, remove, deletion) && k@ == id
            && event_view(step.event) == deletion_report(deletion, id);
    if id != selected && !(phase matches Phase::Downloading { id: running, .. } && running@ == id) {
        assert(in_flight_of(phase@) != Some(id));
        let model = choose|model: ModelAvailability| #[trigger]
            lookup.ensures((k,), model) && if may_delete(
                k@,
                in_flight_of(phase@),
                selected,
                model@,
            ) {
                exists|removed: Result<(), String>| #[trigger]
                    remove.ensures((k,), removed) && deletion == deletion_is(
                        k@,
                        in_flight_of(phase@),
                        selected,
                        model@,
                        removed,
                    )
            } else {
                deletion is RefusedNotOurs
            };
        assert(lookup.ensures((k,), model));
    }
}

/// A command to select a model that this build ships saves the choice in every
/// phase. While a download is in flight that is all; otherwise the model that the
/// setting names from then on is looked up and leads the way. A model that is not
/// shipped is refused, and nothing is saved.
pub proof fn a_selection_is_saved_and_acted_on<
    S,
    R,
    A: FnOnce(&str) -> ModelAvailability,
    F: FnOnce(&str) -> R,
    D: FnOnce(&str) -> Result<(), String>,
    P: FnOnce(&str) -> Option<String>,
    L: FnOnce() -> Option<S>,
>(
    phase: Phase<S>,
    id: Seq<char>,
    selected: Seq<char>,
    manifest: Manifest,
    lock: Seq<LockedModel>,
    lookup: A,
    spawn: F,
    remove: D,
    persist: P,
    load: L,
    step: ProvisionStep<S, R>,
)
    requires
        provision_leads_to(
            phase,
            ProvisionCommandView::SelectModel(id),
            selected,
            manifest,
            lock,
            lookup,
            spawn,
            remove,
            persist,
            load,
            step,
        ),
    ensures
        step.event is None,
        !manifest.ships(id) ==> step.phase == phase && step.outcome is Handled
            && step.setting is Untouched,
        manifest.ships(id) ==> (step.setting matches SettingWrite::Saved { now } && (exists|k: &str|
            #[trigger] persist.ensures((k,), now) && k@ == id) && (if phase is Downloading {
            step.phase == phase && step.outcome is Handled
        } else {
            step.outcome is ReloadedBlocking && exists|k: &str, model: ModelAvailability| #[trigger]
                lookup.ensures((k,), model) && (if now is Some && manifest.ships(now->Some_0@) {
                    k@ == now->Some_0@
                } else {
                    k@ == manifest.default_model@
                }) && leads_to(model@, manifest, load, step.phase@)
        })),
{
}

/// A download that ends leaves no download behind: a failure is said of the very
/// model that was being downloaded, in the words of the failure.
pub proof fn a_failed_download_is_said_of_its_model<S>(id: Seq<char>, message: Seq<char>)
    ensures
        failed_download::<S>(id, message) matches PhaseView::NeedsModel { id: of, status } && of
            == id && status == (ModelStatusView::Failed { message }),
        status_of_phase(failed_download::<S>(id, message)) == (ModelStatusView::Failed { message }),
{
}

/// A progress tick of the running download is shown as it is; it never changes
/// which model is being downloaded, and is lost on every other phase.
pub proof fn a_tick_is_shown_as_it_is<S>(phase: PhaseView<S>, status: ModelStatusView)
    ensures
        phase is Downloading ==> (progressed(phase, status) matches PhaseView::Downloading {
            id,
            status: shown,
        } && shown == status && id == phase->Downloading_id),
        !(phase is Downloading) ==> progressed(phase, status) == phase,
{
}

/// Whether the end of a download led from one phase to another.
pub open spec fn completion_leads_to<
    S,
    A: FnOnce(&str) -> ModelAvailability,
    L: FnOnce() -> Option<S>,
>(
    before: PhaseView<S>,
    outcome: DownloadOutcome,
    selected: Seq<char>,
    manifest: Manifest,
    lookup: A,
    load: L,
    after: PhaseView<S>,
) -> bool {
    match (before, outcome) {
        (PhaseView::Downloading { .. }, DownloadOutcome::Finished) => reload_leads_to(
            selected,
            manifest,
            lookup,
            load,
            after,
        ) && !(after is Downloading),
        (PhaseView::Downloading { id, .. }, DownloadOutcome::Failed(message)) => after
            == failed_download::<S>(id, message@),
        _ => after == before,
    }
}

/// The end of a download is acted on only while one is shown, and none is shown
/// afterwards. A finished one leads where the selected model leads, whichever was
/// downloaded; a failed one is said of the model that was being downloaded, in the
/// words of the failure.
pub proof fn the_end_of_a_download_is_acted_on_once<
    S,
    A: FnOnce(&str) -> ModelAvailability,
    L: FnOnce() -> Option<S>,
>(
    before: PhaseView<S>,
    outcome: DownloadOutcome,
    selected: Seq<char>,
    manifest: Manifest,
    lookup: A,
    load: L,
    after: PhaseView<S>,
)
    requires
        completion_leads_to(before, outcome, selected, manifest, lookup, load, after),
    ensures
        !(after is Downloading),
        !(before is Downloading) ==> after == before,
        before is Downloading ==> (outcome matches DownloadOutcome::Failed(message) ==> after == (
        PhaseView::<S>::NeedsModel {
            id: before->Downloading_id,
            status: ModelStatusView::Failed { message: message@ },
        })),
        before is Downloading && outcome is Finished ==> exists|id: &str, model: ModelAvailability|
            #[trigger] lookup.ensures((id,), model) && id@ == selected && leads_to(
                model@,
                manifest,
                load,
                after,
            ),
{
}

/// What the engine's load reports, given why it failed if it did.
pub open spec fn engine_news(failure: Option<Seq<char>>) -> (
    UiCommandView,
    Option<DictationEventView>,
) {
    (
        UiCommandView::EngineReady(failure),
        match failure {
            Some(reason) => Some(
                DictationEventView::Error {
                    message: "Engine unavailable: "@ + reason,
                    recoverable: false,
                    kind: ErrorKind::Other,
                },
            ),
            None => None,
        },
    )
}

/// A load that succeeded is reported to the main thread and to nobody else; one
/// that failed is reported to both, with the reason, and to the overlay as an
/// error that stays.
pub proof fn a_failed_load_is_reported_with_its_reason(reason: Seq<char>)
    ensures
        engine_news(None).0 == UiCommandView::EngineReady(None),
        engine_news(None).1 is None,
        engine_news(Some(reason)).0 == UiCommandView::EngineReady(Some(reason)),
        engine_news(Some(reason)).1 matches Some(
            DictationEventView::Error { message, recoverable, kind },
        ) && reason.is_suffix_of(message) && message == "Engine unavailable: "@ + reason
            && !recoverable && kind == ErrorKind::Other,
{
    let message = "Engine unavailable: "@ + reason;
    assert(reason =~= message.skip(message.len() - reason.len()));
    assert(reason.is_suffix_of(message));
}

/// The view of a phase keeps what the phase says.
pub proof fn views_of_phases_keep_everything<S>(phase: Phase<S>)
    ensures
        match phase {
            Phase::NeedsModel { id, status } => phase@ matches PhaseView::NeedsModel {
                id: i,
                status: s,
            } && i == id@ && s == status@,
            Phase::Downloading { id, status } => phase@ matches PhaseView::Downloading {
                id: i,
                status: s,
            } && i == id@ && s == status@,
            Phase::EngineFailed(message) => phase@ matches PhaseView::EngineFailed(m) && m
                == message@,
            Phase::Ready(session) => phase@ matches PhaseView::Ready(s) && s == session,
        },
{
}

/// The views of commands keep them one for one, in order.
pub proof fn views_of_commands_keep_their_order(commands: Seq<UiCommand>, i: int)
    requires
        0 <= i < commands.len(),
    ensures
        command_views(commands).len() == commands.len(),
        command_views(commands)[i] == commands[i]@,
{
}

/// The dictation command that goes on to the live session of a phase, if any.
pub open spec fn goes_on<S, C>(phase: Phase<S>, command: C) -> Option<C> {
    if phase is Ready {
        Some(command)
    } else {
        None
    }
}

/// A dictation command goes on exactly if there is a live session, as it is.
pub proof fn a_command_goes_on_to_a_live_session_only<S, C>(phase: Phase<S>, command: C)
    ensures
        phase matches Phase::Ready(session) ==> goes_on(phase, command) == Some(command),
        phase is NeedsModel || phase is Downloading || phase is EngineFailed ==> goes_on(
            phase,
            command,
        ) is None,
{
}

} // verus!
