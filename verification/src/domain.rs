//! The values the UI exchanges with the dictation pipeline, the model store and
//! the operating system.

use vstd::prelude::*;

use crate::text::same_text;

verus! {

/// What is known of a speech model's files.
#[derive(Debug, PartialEq, Eq)]
pub enum ModelStatus {
    /// Not on disk; a download would fetch `total_bytes`.
    Missing { total_bytes: u64 },
    /// Being downloaded.
    Downloading { received_bytes: u64, total_bytes: u64 },
    /// Downloaded, and being checked.
    Verifying,
    /// On disk and trustworthy.
    Ready,
    /// Something went wrong; `message` says what.
    Failed { message: String },
}

/// [`ModelStatus`] as a mathematical value.
#[verifier::ext_equal]
pub ghost enum ModelStatusView {
    Missing { total_bytes: u64 },
    Downloading { received_bytes: u64, total_bytes: u64 },
    Verifying,
    Ready,
    Failed { message: Seq<char> },
}

impl View for ModelStatus {
    type V = ModelStatusView;

    open spec fn view(&self) -> ModelStatusView {
        match *self {
            ModelStatus::Missing { total_bytes } => ModelStatusView::Missing { total_bytes },
            ModelStatus::Downloading { received_bytes, total_bytes } => {
                ModelStatusView::Downloading { received_bytes, total_bytes }
            },
            ModelStatus::Verifying => ModelStatusView::Verifying,
            ModelStatus::Ready => ModelStatusView::Ready,
            ModelStatus::Failed { message } => ModelStatusView::Failed { message: message@ },
        }
    }
}

impl Clone for ModelStatus {
    fn clone(&self) -> (r: Self)
        ensures
            r == *self,
    {
        match self {
            ModelStatus::Missing { total_bytes } => ModelStatus::Missing {
                total_bytes: *total_bytes,
            },
            ModelStatus::Downloading { received_bytes, total_bytes } => ModelStatus::Downloading {
                received_bytes: *received_bytes,
                total_bytes: *total_bytes,
            },
            ModelStatus::Verifying => ModelStatus::Verifying,
            ModelStatus::Ready => ModelStatus::Ready,
            ModelStatus::Failed { message } => ModelStatus::Failed { message: message.clone() },
        }
    }
}

/// Where a model that is on disk came from.
#[derive(Debug, Clone, Copy, PartialEq, Eq, Structural)]
pub enum ModelSource {
    /// Shipped inside the application bundle.
    Bundle,
    /// Found in a development checkout.
    DevTree,
    /// Named by an environment variable.
    EnvOverride,
    /// Downloaded by the application itself.
    UserData,
}

/// One model of the manifest, and how it stands on this machine.
#[derive(Debug, PartialEq, Eq)]
pub struct ModelAvailability {
    pub id: String,
    pub display_name: String,
    pub status: ModelStatus,
    pub source: Option<ModelSource>,
    pub total_bytes: u64,
    pub supported_on_this_os: bool,
}

/// [`ModelAvailability`] as a mathematical value.
#[verifier::ext_equal]
pub ghost struct ModelAvailabilityView {
    pub id: Seq<char>,
    pub display_name: Seq<char>,
    pub status: ModelStatusView,
    pub source: Option<ModelSource>,
    pub total_bytes: u64,
    pub supported_on_this_os: bool,
}

impl View for ModelAvailability {
    type V = ModelAvailabilityView;

    open spec fn view(&self) -> ModelAvailabilityView {
        ModelAvailabilityView {
            id: self.id@,
            display_name: self.display_name@,
            status: self.status@,
            source: self.source,
            total_bytes: self.total_bytes,
            supported_on_this_os: self.supported_on_this_os,
        }
    }
}

impl Clone for ModelAvailability {
    fn clone(&self) -> (r: Self)
        ensures
            r == *self,
    {
        ModelAvailability {
            id: self.id.clone(),
            display_name: self.display_name.clone(),
            status: self.status.clone(),
            source: self.source,
            total_bytes: self.total_bytes,
            supported_on_this_os: self.supported_on_this_os,
        }
    }
}

/// A list of models as a sequence of mathematical values.
pub open spec fn model_views(models: Seq<ModelAvailability>) -> Seq<ModelAvailabilityView> {
    models.map_values(|m: ModelAvailability| m@)
}

impl ModelAvailability {
    /// Whether the application may remove this model: only trees that it
    /// downloaded itself are its own to delete.
    pub fn deletable(&self) -> (r: bool)
        ensures
            r == is_deletable(self@),
    {
        match self.source {
            Some(ModelSource::UserData) => true,
            _ => false,
        }
    }
}

/// Whether a model is the application's own to delete.
pub open spec fn is_deletable(model: ModelAvailabilityView) -> bool {
    model.source == Some(ModelSource::UserData)
}

/// The engine family a model runs on.
#[derive(Debug, Clone, Copy, PartialEq, Eq, Structural)]
pub enum Backend {
    ParakeetTdt,
    CanaryAed,
}

/// One speech model this build ships.
#[derive(Debug, PartialEq, Eq)]
pub struct ManifestModel {
    pub id: String,
    /// The oldest macOS version that can run the model.
    pub min_macos: String,
    pub backend: Backend,
}

/// The speech models this build ships, and the one used when nothing is chosen.
#[derive(Debug, PartialEq, Eq)]
pub struct Manifest {
    pub default_model: String,
    pub models: Vec<ManifestModel>,
}

/// The place of the first model called `id`, if there is one.
pub open spec fn model_position(models: Seq<ManifestModel>, id: Seq<char>) -> Option<int>
    decreases models.len(),
{
    if models.len() == 0 {
        None
    } else if models[0].id@ == id {
        Some(0)
    } else {
        match model_position(models.drop_first(), id) {
            Some(i) => Some(i + 1),
            None => None,
        }
    }
}

/// What [`model_position`] finds is the first model of that name.
pub proof fn model_position_is_first(models: Seq<ManifestModel>, id: Seq<char>)
    ensures
        model_position(models, id) matches Some(i) ==> 0 <= i < models.len() && models[i].id@ == id
            && forall|j: int| 0 <= j < i ==> (#[trigger] models[j]).id@ != id,
        model_position(models, id) is None <==> forall|j: int|
            0 <= j < models.len() ==> (#[trigger] models[j]).id@ != id,
    decreases models.len(),
{
    if models.len() > 0 && models[0].id@ != id {
        let rest = models.drop_first();
        model_position_is_first(rest, id);
        assert forall|j: int| 1 <= j < models.len() implies #[trigger] models[j] == rest[j - 1] by {}
    }
}

impl Manifest {
    /// Whether the manifest names a model called `id`.
    pub open spec fn ships(&self, id: Seq<char>) -> bool {
        exists|i: int| 0 <= i < self.models@.len() && (#[trigger] self.models@[i]).id@ == id
    }

    /// The first model called `id`, if there is one.
    pub open spec fn spec_model(&self, id: Seq<char>) -> Option<ManifestModel> {
        match model_position(self.models@, id) {
            Some(i) => Some(self.models@[i]),
            None => None,
        }
    }

    /// Look a model up by its id.
    pub fn model(&self, id: &str) -> (r: Option<&ManifestModel>)
        ensures
            r is Some <==> self.ships(id@),
            r matches Some(m) ==> self.spec_model(id@) == Some(*m) && m.id@ == id@,
            r is None ==> self.spec_model(id@) is None,
    {
        proof {
            model_position_is_first(self.models@, id@);
        }
        let mut i: usize = 0;
        while i < self.models.len()
            invariant
                i <= self.models@.len(),
                forall|j: int| 0 <= j < i ==> (#[trigger] self.models@[j]).id@ != id@,
            decreases self.models@.len() - i,
        {
            if same_text(self.models[i].id.as_str(), id) {
                proof {
                    model_position_is_first(self.models@, id@);
                }
                return Some(&self.models[i]);
            }
            i = i + 1;
        }
        None
    }
}

/// One model's entry in the pinned download list.
#[derive(Debug, PartialEq, Eq)]
pub struct LockedModel {
    pub id: String,
    pub total_bytes: u64,
}

/// What the dictation pipeline made of a finished session's text.
#[derive(Debug, PartialEq, Eq)]
pub enum InjectionOutcome {
    /// Typed into the application that had the focus.
    Inserted,
    /// Only copied to the clipboard.
    ClipboardOnly { reason: String },
    /// Delivered nowhere.
    Failed { reason: String },
    /// The session held no text.
    NothingToInject,
}

/// [`InjectionOutcome`] as a mathematical value.
#[verifier::ext_equal]
pub ghost enum InjectionOutcomeView {
    Inserted,
    ClipboardOnly { reason: Seq<char> },
    Failed { reason: Seq<char> },
    NothingToInject,
}

impl View for InjectionOutcome {
    type V = InjectionOutcomeView;

    open spec fn view(&self) -> InjectionOutcomeView {
        match *self {
            InjectionOutcome::Inserted => InjectionOutcomeView::Inserted,
            InjectionOutcome::ClipboardOnly { reason } => {
                InjectionOutcomeView::ClipboardOnly { reason: reason@ }
            },
            InjectionOutcome::Failed { reason } => InjectionOutcomeView::Failed { reason: reason@ },
            InjectionOutcome::NothingToInject => InjectionOutcomeView::NothingToInject,
        }
    }
}

/// What kind of error the pipeline met.
#[derive(Debug, Clone, Copy, PartialEq, Eq, Structural)]
pub enum ErrorKind {
    MicPermissionDenied,
    Other,
}

/// The text of a finished session.
#[derive(Debug, PartialEq, Eq)]
pub struct TranscriptionResult {
    pub full_text: String,
    pub language: String,
}

/// What the dictation pipeline reports while it runs.
#[derive(Debug, PartialEq, Eq)]
pub enum DictationEvent {
    SessionStarted,
    PartialTranscript { confirmed_text: String, unconfirmed_text: String },
    /// Somebody is speaking.
    Activity,
    SessionCompleted { result: TranscriptionResult, injection: InjectionOutcome },
    Error { message: String, recoverable: bool, kind: ErrorKind },
}

/// [`DictationEvent`] as a mathematical value.
#[verifier::ext_equal]
pub ghost enum DictationEventView {
    SessionStarted,
    PartialTranscript { confirmed_text: Seq<char>, unconfirmed_text: Seq<char> },
    Activity,
    SessionCompleted { full_text: Seq<char>, language: Seq<char>, injection: InjectionOutcomeView },
    Error { message: Seq<char>, recoverable: bool, kind: ErrorKind },
}

impl View for DictationEvent {
    type V = DictationEventView;

    open spec fn view(&self) -> DictationEventView {
        match *self {
            DictationEvent::SessionStarted => DictationEventView::SessionStarted,
            DictationEvent::PartialTranscript { confirmed_text, unconfirmed_text } => {
                DictationEventView::PartialTranscript {
                    confirmed_text: confirmed_text@,
                    unconfirmed_text: unconfirmed_text@,
                }
            },
            DictationEvent::Activity => DictationEventView::Activity,
            DictationEvent::SessionCompleted { result, injection } => {
                DictationEventView::SessionCompleted {
                    full_text: result.full_text@,
                    language: result.language@,
                    injection: injection@,
                }
            },
            DictationEvent::Error { message, recoverable, kind } => DictationEventView::Error {
                message: message@,
                recoverable,
                kind,
            },
        }
    }
}

/// What the settings tab asks of the provisioning loop. Each command names the
/// model it is about.
#[derive(Debug, PartialEq, Eq)]
pub enum ProvisionCommand {
    /// Download this model, for the first time or after a failure.
    Download(String),
    /// Remove this model.
    Delete(String),
    /// Make this model the active one.
    SelectModel(String),
}

/// [`ProvisionCommand`] as a mathematical value.
#[verifier::ext_equal]
pub ghost enum ProvisionCommandView {
    Download(Seq<char>),
    Delete(Seq<char>),
    SelectModel(Seq<char>),
}

impl View for ProvisionCommand {
    type V = ProvisionCommandView;

    open spec fn view(&self) -> ProvisionCommandView {
        match *self {
            ProvisionCommand::Download(id) => ProvisionCommandView::Download(id@),
            ProvisionCommand::Delete(id) => ProvisionCommandView::Delete(id@),
            ProvisionCommand::SelectModel(id) => ProvisionCommandView::SelectModel(id@),
        }
    }
}

impl Clone for ProvisionCommand {
    fn clone(&self) -> (r: Self)
        ensures
            r == *self,
    {
        match self {
            ProvisionCommand::Download(id) => ProvisionCommand::Download(id.clone()),
            ProvisionCommand::Delete(id) => ProvisionCommand::Delete(id.clone()),
            ProvisionCommand::SelectModel(id) => ProvisionCommand::SelectModel(id.clone()),
        }
    }
}

/// What the background threads and the menu bar ask of the main thread.
#[derive(Debug, PartialEq, Eq)]
pub enum UiCommand {
    /// Open the panel, or close it, as a click on the menu-bar item does.
    OpenPanel,
    /// The selected model's status changed.
    ModelStatus(ModelStatus),
    /// The list of models changed.
    ModelList(Vec<ModelAvailability>),
    /// The engine finished loading, or could not be loaded.
    EngineReady(Result<(), String>),
}

/// [`UiCommand`] as a mathematical value.
#[verifier::ext_equal]
pub ghost enum UiCommandView {
    OpenPanel,
    ModelStatus(ModelStatusView),
    ModelList(Seq<ModelAvailabilityView>),
    EngineReady(Option<Seq<char>>),
}

impl View for UiCommand {
    type V = UiCommandView;

    /// A failed load is `EngineReady` with its message, a successful one
    /// without.
    open spec fn view(&self) -> UiCommandView {
        match *self {
            UiCommand::OpenPanel => UiCommandView::OpenPanel,
            UiCommand::ModelStatus(status) => UiCommandView::ModelStatus(status@),
            UiCommand::ModelList(models) => UiCommandView::ModelList(model_views(models@)),
            UiCommand::EngineReady(Ok(_)) => UiCommandView::EngineReady(None),
            UiCommand::EngineReady(Err(message)) => UiCommandView::EngineReady(Some(message@)),
        }
    }
}

/// The views of statuses and models keep everything they hold.
pub proof fn views_of_models_keep_everything(model: ModelAvailability, other: ModelStatus)
    ensures
        model@.id == model.id@,
        model@.display_name == model.display_name@,
        model@.status == model.status@,
        model@.source == model.source,
        model@.total_bytes == model.total_bytes,
        model@.supported_on_this_os == model.supported_on_this_os,
        model.status@ == other@ ==> match (model.status, other) {
            (ModelStatus::Missing { total_bytes: a }, ModelStatus::Missing { total_bytes: b }) => a
                == b,
            (
                ModelStatus::Downloading { received_bytes: a, total_bytes: x },
                ModelStatus::Downloading { received_bytes: b, total_bytes: y },
            ) => a == b && x == y,
            (ModelStatus::Verifying, ModelStatus::Verifying) => true,
            (ModelStatus::Ready, ModelStatus::Ready) => true,
            (ModelStatus::Failed { message: a }, ModelStatus::Failed { message: b }) => a@ == b@,
            _ => false,
        },
{
}

/// The views of events keep everything they hold.
pub proof fn views_of_events_keep_everything(a: DictationEvent, b: DictationEvent)
    requires
        a@ == b@,
    ensures
        match (a, b) {
            (DictationEvent::SessionStarted, DictationEvent::SessionStarted) => true,
            (DictationEvent::Activity, DictationEvent::Activity) => true,
            (
                DictationEvent::PartialTranscript { confirmed_text: c, unconfirmed_text: u },
                DictationEvent::PartialTranscript { confirmed_text: d, unconfirmed_text: v },
            ) => c@ == d@ && u@ == v@,
            (
                DictationEvent::SessionCompleted { result: r, injection: i },
                DictationEvent::SessionCompleted { result: s, injection: j },
            ) => r.full_text@ == s.full_text@ && r.language@ == s.language@ && i@ == j@ && match (
                i,
                j,
            ) {
                (InjectionOutcome::Inserted, InjectionOutcome::Inserted) => true,
                (InjectionOutcome::NothingToInject, InjectionOutcome::NothingToInject) => true,
                (
                    InjectionOutcome::ClipboardOnly { reason: x },
                    InjectionOutcome::ClipboardOnly { reason: y },
                ) => x@ == y@,
                (InjectionOutcome::Failed { reason: x }, InjectionOutcome::Failed { reason: y }) => {
                    x@ == y@
                },
                _ => false,
            },
            (
                DictationEvent::Error { message: m, recoverable: r, kind: k },
                DictationEvent::Error { message: n, recoverable: s, kind: l },
            ) => m@ == n@ && r == s && k == l,
            _ => false,
        },
{
}

/// The views of commands keep everything they hold.
pub proof fn views_of_commands_keep_everything(
    a: ProvisionCommand,
    b: ProvisionCommand,
    c: UiCommand,
    d: UiCommand,
)
    ensures
        a@ == b@ ==> match (a, b) {
            (ProvisionCommand::Download(x), ProvisionCommand::Download(y)) => x@ == y@,
            (ProvisionCommand::Delete(x), ProvisionCommand::Delete(y)) => x@ == y@,
            (ProvisionCommand::SelectModel(x), ProvisionCommand::SelectModel(y)) => x@ == y@,
            _ => false,
        },
        c@ == d@ ==> match (c, d) {
            (UiCommand::OpenPanel, UiCommand::OpenPanel) => true,
            (UiCommand::ModelStatus(x), UiCommand::ModelStatus(y)) => x@ == y@,
            (UiCommand::ModelList(x), UiCommand::ModelList(y)) => x@.len() == y@.len() && forall|
                i: int,
            |
                0 <= i < x@.len() ==> (#[trigger] x@[i])@ == y@[i]@,
            (UiCommand::EngineReady(Ok(_)), UiCommand::EngineReady(Ok(_))) => true,
            (UiCommand::EngineReady(Err(x)), UiCommand::EngineReady(Err(y))) => x@ == y@,
            _ => false,
        },
{
    if c@ == d@ {
        if let (UiCommand::ModelList(x), UiCommand::ModelList(y)) = (c, d) {
            assert(model_views(x@).len() == model_views(y@).len());
            assert forall|i: int| 0 <= i < x@.len() implies (#[trigger] x@[i])@ == y@[i]@ by {
                assert(model_views(x@)[i] == x@[i]@);
                assert(model_views(y@)[i] == y@[i]@);
            }
        }
    }
}

/// The application may delete exactly the models that it downloaded itself.
pub proof fn only_own_downloads_may_be_deleted(model: ModelAvailabilityView)
    ensures
        model.source is None ==> !is_deletable(model),
        model.source matches Some(source) ==> is_deletable(model) == (source is UserData),
{
}

/// A manifest ships exactly the models that it lists.
pub proof fn a_manifest_ships_what_it_lists(manifest: Manifest, i: int)
    requires
        0 <= i < manifest.models@.len(),
    ensures
        manifest.ships(manifest.models@[i].id@),
        forall|id: Seq<char>|
            manifest.spec_model(id) is Some <==> #[trigger] manifest.ships(id),
{
    assert forall|id: Seq<char>|
        manifest.spec_model(id) is Some <==> #[trigger] manifest.ships(id) by {
        model_position_is_first(manifest.models@, id);
    }
}

} // verus!
