//! The speech-model section of the settings: the list to choose from, the
//! languages, one row for each model, and how the engine is doing.

use vstd::prelude::*;

use crate::app_status::{EngineState, EngineView};
use crate::domain::{
    is_deletable, model_position_is_first, model_views, Manifest, ModelAvailability,
    ModelAvailabilityView, ModelSource,
    ModelStatus, ModelStatusView, ProvisionCommand, ProvisionCommandView,
};
use crate::languages::{backend_of, languages_line, languages_text};
use crate::parts::{
    button, line, no_parts, part_views, push_part, push_parts, Action, ActionView, Fill, Part,
    PartView,
};
use crate::provisioning::{
    a_phase_changes_only_its_own_row, cleared_to_load, in_flight_of, may_delete, may_download, rows_of,
    status_of_phase, PhaseView,
};
use crate::readiness::{format_mb, mb_text};
use crate::text::{join2, join3, same_text, text_views};
use crate::theme::Tone;

verus! {

/// Whether a model may be chosen: it would load.
pub fn selectable(model: &ModelAvailability) -> (r: bool)
    ensures
        r == cleared_to_load(model@),
{
    match model.status {
        ModelStatus::Ready => model.supported_on_this_os,
        _ => false,
    }
}

/// The name of the model called `selected`: that of the first one of the list, or
/// the id itself where the list does not know it.
pub open spec fn display_name_of(models: Seq<ModelAvailabilityView>, selected: Seq<char>) -> Seq<char>
    decreases models.len(),
{
    if models.len() == 0 {
        selected
    } else if models[0].id == selected {
        models[0].display_name
    } else {
        display_name_of(models.drop_first(), selected)
    }
}

/// The name of the selected model, or its id as long as nothing is known of it.
pub fn model_display_name(models: &Vec<ModelAvailability>, selected: &str) -> (r: String)
    ensures
        r@ == display_name_of(model_views(models@), selected@),
{
    let ghost all = model_views(models@);
    let mut i: usize = 0;
    assert(all.skip(0) =~= all);
    while i < models.len()
        invariant
            i <= models@.len(),
            all == model_views(models@),
            display_name_of(all, selected@) == display_name_of(all.skip(i as int), selected@),
        decreases models@.len() - i,
    {
        assert(all.skip(i as int).drop_first() =~= all.skip(i + 1));
        if same_text(models[i].id.as_str(), selected) {
            return models[i].display_name.clone();
        }
        i = i + 1;
    }
    selected.to_owned()
}

/// The one control that a model's row ends in.
#[derive(Debug, PartialEq, Eq)]
pub enum ModelRowControl {
    /// This system is too old for the model.
    Unsupported(String),
    Download,
    Downloading { received_bytes: u64, total_bytes: u64 },
    Verifying,
    Failed(String),
    /// Ready and in use.
    Selected,
    /// Ready, not in use, and the application's own to delete.
    Delete,
    /// Ready and not in use, but put there by somebody else.
    Provisioned(String),
}

/// [`ModelRowControl`] as a mathematical value.
#[verifier::ext_equal]
pub ghost enum ModelRowControlView {
    Unsupported(Seq<char>),
    Download,
    Downloading { received_bytes: u64, total_bytes: u64 },
    Verifying,
    Failed(Seq<char>),
    Selected,
    Delete,
    Provisioned(Seq<char>),
}

impl View for ModelRowControl {
    type V = ModelRowControlView;

    open spec fn view(&self) -> ModelRowControlView {
        match *self {
            ModelRowControl::Unsupported(text) => ModelRowControlView::Unsupported(text@),
            ModelRowControl::Download => ModelRowControlView::Download,
            ModelRowControl::Downloading { received_bytes, total_bytes } => {
                ModelRowControlView::Downloading { received_bytes, total_bytes }
            },
            ModelRowControl::Verifying => ModelRowControlView::Verifying,
            ModelRowControl::Failed(text) => ModelRowControlView::Failed(text@),
            ModelRowControl::Selected => ModelRowControlView::Selected,
            ModelRowControl::Delete => ModelRowControlView::Delete,
            ModelRowControl::Provisioned(text) => ModelRowControlView::Provisioned(text@),
        }
    }
}

/// What is said of a model that this system is too old for.
pub open spec fn min_macos_text(manifest: Manifest, id: Seq<char>) -> Seq<char> {
    match manifest.spec_model(id) {
        Some(model) => "Needs macOS "@ + model.min_macos@,
        None => "Unsupported on this Mac"@,
    }
}

/// What is said of a model that this system is too old for.
pub fn min_macos_label(manifest: &Manifest, id: &str) -> (r: String)
    ensures
        r@ == min_macos_text(*manifest, id@),
{
    match manifest.model(id) {
        Some(model) => join2("Needs macOS ", model.min_macos.as_str()),
        None => "Unsupported on this Mac".to_owned(),
    }
}

/// Who put a model there.
pub open spec fn source_text(source: Option<ModelSource>) -> Seq<char> {
    match source {
        Some(ModelSource::Bundle) => "Bundled"@,
        Some(ModelSource::DevTree) => "Dev tree"@,
        Some(ModelSource::EnvOverride) => "Override"@,
        Some(ModelSource::UserData) => "Downloaded"@,
        None => "Source unknown"@,
    }
}

/// Who put a model there.
pub fn source_label(source: Option<ModelSource>) -> (r: String)
    ensures
        r@ == source_text(source),
{
    match source {
        Some(ModelSource::Bundle) => "Bundled".to_owned(),
        Some(ModelSource::DevTree) => "Dev tree".to_owned(),
        Some(ModelSource::EnvOverride) => "Override".to_owned(),
        Some(ModelSource::UserData) => "Downloaded".to_owned(),
        None => "Source unknown".to_owned(),
    }
}

/// The control that a model's row ends in.
pub open spec fn control_of(
    model: ModelAvailabilityView,
    is_selected: bool,
    manifest: Manifest,
) -> ModelRowControlView {
    if !model.supported_on_this_os {
        ModelRowControlView::Unsupported(min_macos_text(manifest, model.id))
    } else {
        match model.status {
            ModelStatusView::Missing { .. } => ModelRowControlView::Download,
            ModelStatusView::Downloading { received_bytes, total_bytes } => {
                ModelRowControlView::Downloading { received_bytes, total_bytes }
            },
            ModelStatusView::Verifying => ModelRowControlView::Verifying,
            ModelStatusView::Failed { message } => ModelRowControlView::Failed(message),
            ModelStatusView::Ready => if is_selected {
                ModelRowControlView::Selected
            } else if is_deletable(model) {
                ModelRowControlView::Delete
            } else {
                ModelRowControlView::Provisioned(source_text(model.source))
            },
        }
    }
}

/// The control that a model's row ends in.
pub fn model_row_control(
    model: &ModelAvailability,
    is_selected: bool,
    manifest: &Manifest,
) -> (r: ModelRowControl)
    ensures
        r@ == control_of(model@, is_selected, *manifest),
{
    if !model.supported_on_this_os {
        return ModelRowControl::Unsupported(min_macos_label(manifest, model.id.as_str()));
    }
    match &model.status {
        ModelStatus::Missing { .. } => ModelRowControl::Download,
        ModelStatus::Downloading { received_bytes, total_bytes } => ModelRowControl::Downloading {
            received_bytes: *received_bytes,
            total_bytes: *total_bytes,
        },
        ModelStatus::Verifying => ModelRowControl::Verifying,
        ModelStatus::Failed { message } => ModelRowControl::Failed(message.clone()),
        ModelStatus::Ready => if is_selected {
            ModelRowControl::Selected
        } else if model.deletable() {
            ModelRowControl::Delete
        } else {
            ModelRowControl::Provisioned(source_label(model.source))
        },
    }
}

/// The command to download a model.
pub fn download_of(id: String) -> (r: ProvisionCommand)
    ensures
        r@ == ProvisionCommandView::Download(id@),
{
    ProvisionCommand::Download(id)
}

/// The command to delete a model.
pub fn delete_of(id: String) -> (r: ProvisionCommand)
    ensures
        r@ == ProvisionCommandView::Delete(id@),
{
    ProvisionCommand::Delete(id)
}

/// What a running download shows.
pub open spec fn download_parts(received_bytes: u64, total_bytes: u64) -> Seq<PartView> {
    seq![
        PartView::Progress { received_bytes, total_bytes },
        PartView::Line {
            text: mb_text(received_bytes) + " of "@ + mb_text(total_bytes),
            tone: Tone::Secondary,
        },
        PartView::Pill("In progress…"@),
    ]
}

/// What a running download shows: a bar, the bytes, and that it is under way.
pub fn download_progress(received_bytes: u64, total_bytes: u64) -> (r: Vec<Part>)
    ensures
        part_views(r@) == download_parts(received_bytes, total_bytes),
{
    let bytes = join3(
        format_mb(received_bytes).as_str(),
        " of ",
        format_mb(total_bytes).as_str(),
    );
    let parts = vec![
        Part::Progress { received_bytes, total_bytes },
        Part::Line { text: bytes, tone: Tone::Secondary },
        Part::Pill("In progress…".to_owned()),
    ];
    parts
}

/// What the control of a model's row is made of.
pub open spec fn control_parts(control: ModelRowControlView, id: Seq<char>) -> Seq<PartView> {
    match control {
        ModelRowControlView::Unsupported(label) => seq![PartView::Pill(label)],
        ModelRowControlView::Provisioned(label) => seq![PartView::Pill(label)],
        ModelRowControlView::Selected => seq![PartView::Pill("Selected"@)],
        ModelRowControlView::Download => seq![
            PartView::Button {
                label: "Download"@,
                fill: Fill::Accent,
                action: ActionView::Provision(ProvisionCommandView::Download(id)),
            },
        ],
        ModelRowControlView::Downloading { received_bytes, total_bytes } => download_parts(
            received_bytes,
            total_bytes,
        ),
        ModelRowControlView::Verifying => seq![
            PartView::Line { text: "Verifying…"@, tone: Tone::Secondary },
            PartView::Pill("In progress…"@),
        ],
        ModelRowControlView::Failed(message) => seq![
            PartView::Line { text: message, tone: Tone::Failure },
            PartView::Button {
                label: "Retry"@,
                fill: Fill::Accent,
                action: ActionView::Provision(ProvisionCommandView::Download(id)),
            },
        ],
        ModelRowControlView::Delete => seq![
            PartView::Button {
                label: "Delete"@,
                fill: Fill::Danger,
                action: ActionView::Provision(ProvisionCommandView::Delete(id)),
            },
        ],
    }
}

/// What the control of a model's row is made of.
pub fn row_control(control: ModelRowControl, id: &str) -> (r: Vec<Part>)
    ensures
        part_views(r@) == control_parts(control@, id@),
{
    match control {
        ModelRowControl::Unsupported(label) => vec![Part::Pill(label)],
        ModelRowControl::Provisioned(label) => vec![Part::Pill(label)],
        ModelRowControl::Selected => vec![Part::Pill("Selected".to_owned())],
        ModelRowControl::Download => vec![
            button("Download", Fill::Accent, Action::Provision(download_of(id.to_owned()))),
        ],
        ModelRowControl::Downloading { received_bytes, total_bytes } => download_progress(
            received_bytes,
            total_bytes,
        ),
        ModelRowControl::Verifying => vec![
            line("Verifying…", Tone::Secondary),
            Part::Pill("In progress…".to_owned()),
        ],
        ModelRowControl::Failed(message) => vec![
            Part::Line { text: message, tone: Tone::Failure },
            button("Retry", Fill::Accent, Action::Provision(download_of(id.to_owned()))),
        ],
        ModelRowControl::Delete => vec![
            button("Delete", Fill::Danger, Action::Provision(delete_of(id.to_owned()))),
        ],
    }
}

/// The row of one model.
pub open spec fn row_parts(
    model: ModelAvailabilityView,
    is_selected: bool,
    manifest: Manifest,
) -> Seq<PartView> {
    seq![
        PartView::Name(model.display_name),
        PartView::Line { text: mb_text(model.total_bytes), tone: Tone::Tertiary },
    ] + control_parts(control_of(model, is_selected, manifest), model.id)
}

/// The row of one model: its name, its size, and the one control that its state
/// calls for.
pub fn model_list_row(
    model: &ModelAvailability,
    is_selected: bool,
    manifest: &Manifest,
) -> (r: Vec<Part>)
    ensures
        part_views(r@) == row_parts(model@, is_selected, *manifest),
{
    let mut parts = vec![
        Part::Name(model.display_name.clone()),
        Part::Line { text: format_mb(model.total_bytes), tone: Tone::Tertiary },
    ];
    let control = model_row_control(model, is_selected, manifest);
    push_parts(&mut parts, row_control(control, model.id.as_str()));
    parts
}

/// The rows of all models, in order.
pub open spec fn list_parts(
    models: Seq<ModelAvailabilityView>,
    selected: Seq<char>,
    manifest: Manifest,
) -> Seq<PartView>
    decreases models.len(),
{
    if models.len() == 0 {
        Seq::empty()
    } else {
        list_parts(models.drop_last(), selected, manifest) + row_parts(
            models.last(),
            models.last().id == selected,
            manifest,
        )
    }
}

/// The rows of all models, in order.
pub fn model_list(
    models: &Vec<ModelAvailability>,
    selected: &str,
    manifest: &Manifest,
) -> (r: Vec<Part>)
    ensures
        part_views(r@) == list_parts(model_views(models@), selected@, *manifest),
{
    let ghost all = model_views(models@);
    let mut parts = no_parts();
    let mut i: usize = 0;
    while i < models.len()
        invariant
            i <= models@.len(),
            all == model_views(models@),
            part_views(parts@) == list_parts(all.take(i as int), selected@, *manifest),
        decreases models@.len() - i,
    {
        assert(all.take(i + 1).drop_last() =~= all.take(i as int));
        let is_selected = same_text(models[i].id.as_str(), selected);
        push_parts(&mut parts, model_list_row(&models[i], is_selected, manifest));
        i = i + 1;
    }
    assert(all.take(all.len() as int) =~= all);
    parts
}

/// The entries of the open list of models: each that would load can be chosen.
pub open spec fn option_parts(models: Seq<ModelAvailabilityView>) -> Seq<PartView> {
    models.map_values(
        |m: ModelAvailabilityView|
            if cleared_to_load(m) {
                PartView::Choice {
                    label: m.display_name,
                    tone: Tone::Primary,
                    action: ActionView::ChooseModel(m.id),
                }
            } else {
                PartView::DisabledChoice(m.display_name)
            },
    )
}

/// The entries of the open list of models: each that would load can be chosen.
pub fn model_options(models: &Vec<ModelAvailability>) -> (r: Vec<Part>)
    ensures
        part_views(r@) == option_parts(model_views(models@)),
{
    let ghost all = model_views(models@);
    let mut parts = no_parts();
    let mut i: usize = 0;
    while i < models.len()
        invariant
            i <= models@.len(),
            all == model_views(models@),
            part_views(parts@) == option_parts(all.take(i as int)),
        decreases models@.len() - i,
    {
        let model = &models[i];
        let part = if selectable(model) {
            Part::Choice {
                label: model.display_name.clone(),
                tone: Tone::Primary,
                action: Action::ChooseModel(model.id.clone()),
            }
        } else {
            Part::DisabledChoice(model.display_name.clone())
        };
        push_part(&mut parts, part);
        i = i + 1;
    }
    parts
}

/// The list of models to choose from.
pub open spec fn chooser_parts(
    models: Seq<ModelAvailabilityView>,
    selected: Seq<char>,
    recording: bool,
    open: bool,
) -> Seq<PartView> {
    let label = display_name_of(models, selected);
    if recording {
        seq![PartView::Pill(label)]
    } else {
        seq![
            PartView::Dropdown { label, tone: Tone::Primary, action: ActionView::ToggleModels },
        ] + (if open {
            option_parts(models)
        } else {
            Seq::empty()
        })
    }
}

/// The list of models to choose from. It is locked while a session is live: the
/// engine is not swapped from under it.
pub fn model_row(
    models: &Vec<ModelAvailability>,
    selected: &str,
    recording: bool,
    open: bool,
) -> (r: Vec<Part>)
    ensures
        part_views(r@) == chooser_parts(model_views(models@), selected@, recording, open),
{
    let label = model_display_name(models, selected);
    if recording {
        return vec![Part::Pill(label)];
    }
    let mut parts = vec![
        Part::Dropdown { label, tone: Tone::Primary, action: Action::ToggleModels },
    ];
    if open {
        push_parts(&mut parts, model_options(models));
    }
    parts
}

/// How the engine is doing.
pub open spec fn engine_parts(engine: EngineView, selected: Seq<char>) -> Seq<PartView> {
    match engine {
        EngineView::Ready => Seq::empty(),
        EngineView::Loading => seq![
            PartView::Line { text: "Warming up the speech engine…"@, tone: Tone::Secondary },
        ],
        EngineView::Failed(message) => seq![
            PartView::Line { text: message, tone: Tone::Failure },
            PartView::Button {
                label: "Retry"@,
                fill: Fill::Accent,
                action: ActionView::Provision(ProvisionCommandView::SelectModel(selected)),
            },
        ],
    }
}

/// How the engine is doing. Where it could not be loaded, selecting the model
/// again tries again, without another download.
pub fn engine_state(engine: &EngineState, selected: &str) -> (r: Vec<Part>)
    ensures
        part_views(r@) == engine_parts(engine@, selected@),
{
    let parts = match engine {
        EngineState::Ready => no_parts(),
        EngineState::Loading => vec![line("Warming up the speech engine…", Tone::Secondary)],
        EngineState::Failed(message) => vec![
            line(message.as_str(), Tone::Failure),
            button(
                "Retry",
                Fill::Accent,
                Action::Provision(ProvisionCommand::SelectModel(selected.to_owned())),
            ),
        ],
    };
    parts
}

/// The speech-model section.
pub open spec fn speech_model_parts(
    models: Seq<ModelAvailabilityView>,
    engine: EngineView,
    recording: bool,
    open: bool,
    selected: Seq<char>,
    languages: Seq<char>,
    manifest: Manifest,
) -> Seq<PartView> {
    seq![PartView::Label("Speech Model"@)] + chooser_parts(models, selected, recording, open)
        + seq![PartView::Line { text: languages, tone: Tone::Tertiary }] + list_parts(
        models,
        selected,
        manifest,
    ) + engine_parts(engine, selected)
}

/// The speech-model section: the list to choose from, the languages of the
/// selected model, one row for each model, and how the engine is doing.
pub fn speech_model_section(
    models: &Vec<ModelAvailability>,
    engine: &EngineState,
    recording: bool,
    open: bool,
    selected: &str,
    manifest: &Manifest,
    mapped: &Vec<String>,
    prompted: &Vec<String>,
) -> (r: Vec<Part>)
    ensures
        part_views(r@) == speech_model_parts(
            model_views(models@),
            engine@,
            recording,
            open,
            selected@,
            languages_text(
                backend_of(*manifest, selected@),
                text_views(mapped@),
                text_views(prompted@),
            ),
            *manifest,
        ),
{
    let mut parts = no_parts();
    push_part(&mut parts, Part::Label("Speech Model".to_owned()));
    push_parts(&mut parts, model_row(models, selected, recording, open));
    let languages = languages_line(selected, manifest, mapped, prompted);
    push_part(&mut parts, Part::Line { text: languages, tone: Tone::Tertiary });
    push_parts(&mut parts, model_list(models, selected, manifest));
    push_parts(&mut parts, engine_state(engine, selected));
    parts
}

/// The selected model's row never offers to delete it.
pub proof fn the_selected_row_offers_no_deletion(model: ModelAvailabilityView, manifest: Manifest)
    ensures
        !(control_of(model, true, manifest) is Delete),
{
}

/// A row offers to delete a model exactly if it is ready, supported, not selected
/// and the application's own, so that the provisioning loop would do it.
pub proof fn a_row_offers_deletion_only_of_own_idle_models(
    model: ModelAvailabilityView,
    is_selected: bool,
    manifest: Manifest,
)
    ensures
        control_of(model, is_selected, manifest) is Delete <==> (cleared_to_load(model)
            && !is_selected && is_deletable(model)),
{
}

/// A row of a model that this system is too old for offers nothing at all.
pub proof fn an_unsupported_row_offers_nothing(
    model: ModelAvailabilityView,
    is_selected: bool,
    manifest: Manifest,
    i: int,
)
    requires
        !model.supported_on_this_os,
        0 <= i < row_parts(model, is_selected, manifest).len(),
    ensures
        !(row_parts(model, is_selected, manifest)[i] is Button),
{
}

/// While a session is live, no other model can be chosen.
pub proof fn a_live_session_locks_the_choice(
    models: Seq<ModelAvailabilityView>,
    selected: Seq<char>,
    open: bool,
    i: int,
)
    requires
        0 <= i < chooser_parts(models, selected, true, open).len(),
    ensures
        chooser_parts(models, selected, true, open)[i] is Pill,
{
}

/// What a row offers to delete, the provisioning loop deletes: the row goes by
/// the same rules, and a model that is being downloaded shows that instead. A
/// download in flight is taken not to report itself as ready.
pub proof fn an_offered_deletion_is_never_refused<S>(
    phase: PhaseView<S>,
    models: Seq<ModelAvailabilityView>,
    i: int,
    selected: Seq<char>,
    manifest: Manifest,
)
    requires
        0 <= i < models.len(),
        phase is Downloading ==> !(status_of_phase(phase) is Ready),
        ({
            let row = rows_of(phase, models)[i];
            control_of(row, row.id == selected, manifest) is Delete
        }),
    ensures
        may_delete(models[i].id, in_flight_of(phase), selected, models[i]),
{
    a_phase_changes_only_its_own_row(phase, models, i);
}

/// What a row offers to download, the provisioning loop downloads, unless another
/// download is in flight.
pub proof fn an_offered_download_is_never_refused(
    model: ModelAvailabilityView,
    is_selected: bool,
    manifest: Manifest,
)
    requires
        manifest.ships(model.id),
        control_of(model, is_selected, manifest) is Download || control_of(
            model,
            is_selected,
            manifest,
        ) is Failed,
    ensures
        may_download(model.id, model, manifest),
{
}

/// Every model has a row: the list shows each of them by its name.
pub proof fn every_model_has_a_row(
    models: Seq<ModelAvailabilityView>,
    selected: Seq<char>,
    manifest: Manifest,
    i: int,
)
    requires
        0 <= i < models.len(),
    ensures
        list_parts(models, selected, manifest).contains(PartView::Name(models[i].display_name)),
    decreases models.len(),
{
    let name = PartView::Name(models[i].display_name);
    let earlier = list_parts(models.drop_last(), selected, manifest);
    let all = list_parts(models, selected, manifest);
    if i == models.len() - 1 {
        assert(all[earlier.len() as int] == name);
    } else {
        every_model_has_a_row(models.drop_last(), selected, manifest, i);
        let k = choose|k: int| 0 <= k < earlier.len() && earlier[k] == name;
        assert(all[k] == name);
    }
}

/// The selected model goes by the name of its first entry on the list, and by its
/// id where the list does not know it.
pub proof fn the_selected_model_goes_by_its_name(
    models: Seq<ModelAvailabilityView>,
    selected: Seq<char>,
    i: int,
)
    ensures
        (forall|j: int| 0 <= j < models.len() ==> (#[trigger] models[j]).id != selected)
            ==> display_name_of(models, selected) == selected,
        0 <= i < models.len() && models[i].id == selected && (forall|j: int|
            0 <= j < i ==> (#[trigger] models[j]).id != selected) ==> display_name_of(
            models,
            selected,
        ) == models[i].display_name,
    decreases models.len(),
{
    if models.len() > 0 && models[0].id != selected {
        let rest = models.drop_first();
        the_selected_model_goes_by_its_name(rest, selected, i - 1);
        if forall|j: int| 0 <= j < models.len() ==> (#[trigger] models[j]).id != selected {
            assert forall|j: int| 0 <= j < rest.len() implies (#[trigger] rest[j]).id
                != selected by {
                assert(rest[j] == models[j + 1]);
            }
        }
        if 0 <= i < models.len() && models[i].id == selected && (forall|j: int|
            0 <= j < i ==> (#[trigger] models[j]).id != selected) {
            assert(i > 0);
            assert(rest[i - 1] == models[i]);
            assert forall|j: int| 0 <= j < i - 1 implies (#[trigger] rest[j]).id != selected by {
                assert(rest[j] == models[j + 1]);
            }
        }
    }
}

/// What a model's row ends in, by how the model stands: a model that this system
/// is too old for says so; one that is missing offers its download, one that is
/// arriving shows how far it is, one that is being checked that it is, one that
/// failed why; and a ready one says that it is selected, offers its deletion where
/// the application downloaded it, and says who put it there where it did not.
pub proof fn a_row_ends_in_what_its_model_calls_for(
    model: ModelAvailabilityView,
    is_selected: bool,
    manifest: Manifest,
)
    ensures
        ({
            let control = control_of(model, is_selected, manifest);
            let works = model.supported_on_this_os;
            let ready = works && model.status is Ready;
            &&& control is Unsupported <==> !works
            &&& control is Download <==> works && model.status is Missing
            &&& control is Verifying <==> works && model.status is Verifying
            &&& control is Selected <==> ready && is_selected
            &&& control is Delete <==> ready && !is_selected && model.source == Some(
                ModelSource::UserData,
            )
            &&& control is Provisioned <==> ready && !is_selected && model.source != Some(
                ModelSource::UserData,
            )
            &&& works ==> (model.status matches ModelStatusView::Downloading {
                received_bytes,
                total_bytes,
            } ==> control == (ModelRowControlView::Downloading { received_bytes, total_bytes }))
            &&& works ==> (model.status matches ModelStatusView::Failed { message } ==> control
                == ModelRowControlView::Failed(message))
            &&& control matches ModelRowControlView::Provisioned(label) ==> label == source_text(
                model.source,
            )
            &&& control matches ModelRowControlView::Unsupported(label) ==> label == min_macos_text(
                manifest,
                model.id,
            )
        }),
{
}

/// What a click on a row's button does is done to the row's own model: a missing
/// and a failed one is downloaded, an idle one of the application's own is deleted.
/// No other row has a button.
pub proof fn a_row_s_button_is_about_its_model(
    model: ModelAvailabilityView,
    is_selected: bool,
    manifest: Manifest,
    i: int,
)
    requires
        0 <= i < row_parts(model, is_selected, manifest).len(),
    ensures
        row_parts(model, is_selected, manifest)[0] == PartView::Name(model.display_name),
        row_parts(model, is_selected, manifest)[1] == (PartView::Line {
            text: mb_text(model.total_bytes),
            tone: Tone::Tertiary,
        }),
        row_parts(model, is_selected, manifest)[i] matches PartView::Button { label, fill, action }
            ==> {
            ||| model.status is Missing && label == "Download"@ && fill == Fill::Accent && action
                == ActionView::Provision(ProvisionCommandView::Download(model.id))
            ||| model.status is Failed && label == "Retry"@ && fill == Fill::Accent && action
                == ActionView::Provision(ProvisionCommandView::Download(model.id))
            ||| model.status is Ready && !is_selected && model.source == Some(ModelSource::UserData)
                && label == "Delete"@ && fill == Fill::Danger && action == ActionView::Provision(
                ProvisionCommandView::Delete(model.id),
            )
        },
        !(row_parts(model, is_selected, manifest)[i] is Choice),
        !(row_parts(model, is_selected, manifest)[i] is Dropdown),
        row_parts(model, is_selected, manifest).skip(2) == control_parts(
            control_of(model, is_selected, manifest),
            model.id,
        ),
        model.supported_on_this_os && (model.status is Missing || model.status is Failed)
            ==> row_parts(model, is_selected, manifest).last() is Button,
{
    assert(row_parts(model, is_selected, manifest).skip(2) =~= control_parts(
        control_of(model, is_selected, manifest),
        model.id,
    ));
}

/// What a row is made of after its name and size, for each control.
pub proof fn what_a_control_is_made_of(id: Seq<char>, text: Seq<char>, received: u64, total: u64)
    ensures
        control_parts(ModelRowControlView::Unsupported(text), id) == seq![PartView::Pill(text)],
        control_parts(ModelRowControlView::Provisioned(text), id) == seq![PartView::Pill(text)],
        control_parts(ModelRowControlView::Selected, id) == seq![PartView::Pill("Selected"@)],
        control_parts(ModelRowControlView::Download, id).len() == 1,
        control_parts(ModelRowControlView::Download, id)[0] is Button,
        control_parts(ModelRowControlView::Delete, id).len() == 1,
        control_parts(ModelRowControlView::Delete, id)[0] is Button,
        control_parts(ModelRowControlView::Failed(text), id).len() == 2,
        control_parts(ModelRowControlView::Failed(text), id)[0] == (PartView::Line {
            text,
            tone: Tone::Failure,
        }),
        control_parts(ModelRowControlView::Failed(text), id)[1] is Button,
        control_parts(ModelRowControlView::Verifying, id) == seq![
            PartView::Line { text: "Verifying…"@, tone: Tone::Secondary },
            PartView::Pill("In progress…"@),
        ],
        control_parts(
            ModelRowControlView::Downloading { received_bytes: received, total_bytes: total },
            id,
        ) == seq![
            PartView::Progress { received_bytes: received, total_bytes: total },
            PartView::Line {
                text: mb_text(received) + " of "@ + mb_text(total),
                tone: Tone::Secondary,
            },
            PartView::Pill("In progress…"@),
        ],
{
}

/// Who put a model there, in words; and the oldest system that the manifest's
/// first entry for a model names.
pub proof fn where_models_come_from_and_what_they_need(manifest: Manifest, id: Seq<char>, i: int)
    ensures
        source_text(Some(ModelSource::Bundle)) == "Bundled"@,
        source_text(Some(ModelSource::DevTree)) == "Dev tree"@,
        source_text(Some(ModelSource::EnvOverride)) == "Override"@,
        source_text(Some(ModelSource::UserData)) == "Downloaded"@,
        source_text(None) == "Source unknown"@,
        0 <= i < manifest.models@.len() && manifest.models@[i].id@ == id && (forall|j: int|
            0 <= j < i ==> (#[trigger] manifest.models@[j]).id@ != id) ==> min_macos_text(
            manifest,
            id,
        ) == "Needs macOS "@ + manifest.models@[i].min_macos@,
        (forall|j: int|
            0 <= j < manifest.models@.len() ==> (#[trigger] manifest.models@[j]).id@ != id)
            ==> min_macos_text(manifest, id) == "Unsupported on this Mac"@,
{
    model_position_is_first(manifest.models@, id);
}

/// The list shows one row after the other, in the order of the models, and marks
/// exactly the rows of the selected one.
pub proof fn rows_follow_the_order_of_the_models(
    models: Seq<ModelAvailabilityView>,
    model: ModelAvailabilityView,
    selected: Seq<char>,
    manifest: Manifest,
)
    ensures
        list_parts(Seq::empty(), selected, manifest) == Seq::<PartView>::empty(),
        list_parts(models.push(model), selected, manifest) == list_parts(models, selected, manifest)
            + row_parts(model, model.id == selected, manifest),
{
    assert(models.push(model).drop_last() =~= models);
}

/// The open list of models has one entry for each, by its name, in order. Those
/// that would load choose themselves, and no other can be chosen.
pub proof fn every_model_that_would_load_can_be_chosen(
    models: Seq<ModelAvailabilityView>,
    i: int,
)
    requires
        0 <= i < models.len(),
    ensures
        option_parts(models).len() == models.len(),
        models[i].supported_on_this_os && models[i].status is Ready ==> option_parts(models)[i] == (
        PartView::Choice {
            label: models[i].display_name,
            tone: Tone::Primary,
            action: ActionView::ChooseModel(models[i].id),
        }),
        !models[i].supported_on_this_os || !(models[i].status is Ready) ==> option_parts(models)[i]
            == PartView::DisabledChoice(models[i].display_name),
        cleared_to_load(models[i]) == (models[i].supported_on_this_os && models[i].status is Ready),
{
}

/// The head of the section names the selected model. It opens and closes the list,
/// which is shown exactly while it is open, unless a session is live: then there
/// is nothing but the name.
pub proof fn the_head_names_the_selected_model(
    models: Seq<ModelAvailabilityView>,
    selected: Seq<char>,
    open: bool,
)
    ensures
        chooser_parts(models, selected, true, open) == seq![
            PartView::Pill(display_name_of(models, selected)),
        ],
        chooser_parts(models, selected, false, open)[0] == (PartView::Dropdown {
            label: display_name_of(models, selected),
            tone: Tone::Primary,
            action: ActionView::ToggleModels,
        }),
        chooser_parts(models, selected, false, false).len() == 1,
        chooser_parts(models, selected, false, true).skip(1) == option_parts(models),
{
    assert(chooser_parts(models, selected, false, true).skip(1) =~= option_parts(models));
}

/// An engine that failed says why and offers to load the selected model again,
/// without a download; one that loads says so; and one that is ready says nothing.
pub proof fn a_failed_engine_offers_to_load_again(message: Seq<char>, selected: Seq<char>)
    ensures
        engine_parts(EngineView::Ready, selected).len() == 0,
        engine_parts(EngineView::Loading, selected) == seq![
            PartView::Line { text: "Warming up the speech engine…"@, tone: Tone::Secondary },
        ],
        engine_parts(EngineView::Failed(message), selected) == seq![
            PartView::Line { text: message, tone: Tone::Failure },
            PartView::Button {
                label: "Retry"@,
                fill: Fill::Accent,
                action: ActionView::Provision(ProvisionCommandView::SelectModel(selected)),
            },
        ],
{
}

/// The speech-model section is made of its label, the head, the languages, the
/// rows and the engine, one after the other.
pub proof fn the_section_is_made_of_its_parts(
    models: Seq<ModelAvailabilityView>,
    engine: EngineView,
    recording: bool,
    open: bool,
    selected: Seq<char>,
    languages: Seq<char>,
    manifest: Manifest,
)
    ensures
        ({
            let parts = speech_model_parts(
                models,
                engine,
                recording,
                open,
                selected,
                languages,
                manifest,
            );
            let head = chooser_parts(models, selected, recording, open);
            let rows = list_parts(models, selected, manifest);
            let state = engine_parts(engine, selected);
            &&& parts.len() == 2 + head.len() + rows.len() + state.len()
            &&& parts[0] == PartView::Label("Speech Model"@)
            &&& parts.subrange(1, 1 + head.len() as int) == head
            &&& parts[1 + head.len() as int] == (PartView::Line {
                text: languages,
                tone: Tone::Tertiary,
            })
            &&& parts.subrange(2 + head.len() as int, 2 + head.len() as int + rows.len() as int)
                == rows
            &&& parts.skip(2 + head.len() as int + rows.len() as int) == state
        }),
{
    let parts = speech_model_parts(models, engine, recording, open, selected, languages, manifest);
    let head = chooser_parts(models, selected, recording, open);
    let rows = list_parts(models, selected, manifest);
    let state = engine_parts(engine, selected);
    let a = head.len() as int;
    let b = rows.len() as int;
    assert(parts.subrange(1, 1 + a) =~= head);
    assert(parts.subrange(2 + a, 2 + a + b) =~= rows);
    assert(parts.skip(2 + a + b) =~= state);
}

/// The view of a row's control keeps what it says.
pub proof fn views_of_controls_keep_everything(control: ModelRowControl)
    ensures
        match control {
            ModelRowControl::Unsupported(text) => control@ == ModelRowControlView::Unsupported(
                text@,
            ),
            ModelRowControl::Download => control@ is Download,
            ModelRowControl::Downloading { received_bytes, total_bytes } => control@ == (
            ModelRowControlView::Downloading { received_bytes, total_bytes }),
            ModelRowControl::Verifying => control@ is Verifying,
            ModelRowControl::Failed(text) => control@ == ModelRowControlView::Failed(text@),
            ModelRowControl::Selected => control@ is Selected,
            ModelRowControl::Delete => control@ is Delete,
            ModelRowControl::Provisioned(text) => control@ == ModelRowControlView::Provisioned(
                text@,
            ),
        },
{
}

} // verus!
