//! The application's state, the one status it comes down to, and how that status
//! reads.

use vstd::prelude::*;

use crate::domain::{
    model_views, ModelAvailability, ModelAvailabilityView, ModelStatus, ModelStatusView, UiCommand,
    UiCommandView,
};
use crate::hotkey_presets::{HotkeyLabels, HotkeySetting};
use crate::readiness::{format_mb, mb_text, Access, Permission};
use crate::text::{decimal, decimal_is_injective, decimal_text, join2, join3};

verus! {

/// How far the speech engine is.
#[derive(Debug, PartialEq, Eq)]
pub enum EngineState {
    /// Warming up; dictation cannot start yet.
    Loading,
    Ready,
    /// It could not be loaded; the text says why.
    Failed(String),
}

/// [`EngineState`] as a mathematical value.
#[verifier::ext_equal]
pub ghost enum EngineView {
    Loading,
    Ready,
    Failed(Seq<char>),
}

impl View for EngineState {
    type V = EngineView;

    open spec fn view(&self) -> EngineView {
        match *self {
            EngineState::Loading => EngineView::Loading,
            EngineState::Ready => EngineView::Ready,
            EngineState::Failed(message) => EngineView::Failed(message@),
        }
    }
}

/// Whether the chosen hotkey is listened for.
#[derive(Debug, Clone, Copy, PartialEq, Eq, Structural)]
pub enum HotkeyState {
    Active(HotkeySetting),
    Failed(HotkeySetting),
}

/// The state of the hotkey after an attempt to listen for it.
pub fn hotkey_after_start(preset: HotkeySetting, started: bool) -> (r: HotkeyState)
    ensures
        r == hotkey_started(preset, started),
        r == if started {
            HotkeyState::Active(preset)
        } else {
            HotkeyState::Failed(preset)
        },
{
    if started {
        HotkeyState::Active(preset)
    } else {
        HotkeyState::Failed(preset)
    }
}

/// The application's state.
#[derive(Debug, PartialEq, Eq)]
pub struct StatusModel {
    /// The selected model's status; none before the provisioning loop reports.
    pub model: Option<ModelStatus>,
    /// Every model the manifest knows.
    pub models: Vec<ModelAvailability>,
    pub engine: EngineState,
    pub recording: bool,
    pub hotkey: HotkeyState,
    /// The permissions that are missing, each with how it stands.
    pub permissions_missing: Vec<(Permission, Access)>,
    /// Whether permissions were missing when the application started: once they
    /// are granted, it has to be started again.
    pub launch_blocked: bool,
    /// What to say where the settings could not be read.
    pub settings_load_warning: Option<String>,
}

/// [`StatusModel`] as a mathematical value.
#[verifier::ext_equal]
pub ghost struct StatusView {
    pub model: Option<ModelStatusView>,
    pub models: Seq<ModelAvailabilityView>,
    pub engine: EngineView,
    pub recording: bool,
    pub hotkey: HotkeyState,
    pub permissions_missing: Seq<(Permission, Access)>,
    pub launch_blocked: bool,
    pub settings_load_warning: Option<Seq<char>>,
}

/// An optional text as a mathematical value.
pub open spec fn text_view(text: Option<String>) -> Option<Seq<char>> {
    match text {
        Some(t) => Some(t@),
        None => None,
    }
}

impl View for StatusModel {
    type V = StatusView;

    open spec fn view(&self) -> StatusView {
        StatusView {
            model: match self.model {
                Some(status) => Some(status@),
                None => None,
            },
            models: model_views(self.models@),
            engine: self.engine@,
            recording: self.recording,
            hotkey: self.hotkey,
            permissions_missing: self.permissions_missing@,
            launch_blocked: self.launch_blocked,
            settings_load_warning: text_view(self.settings_load_warning),
        }
    }
}

/// The one status that the application's state comes down to.
#[derive(Debug, Clone, Copy, PartialEq, Eq, Structural)]
pub enum CompositeStatus {
    Recording,
    PermissionsMissing,
    RelaunchRequired,
    /// The model is missing or failed: either way the user has to act.
    ModelMissing,
    /// How much of the model has arrived, in percent.
    Downloading(u8),
    Verifying,
    EngineFailed,
    EngineLoading,
    Ready,
}

/// A part of a whole in percent, to the nearest one, halves up, and never above
/// 100. A whole of nothing is 0 percent done.
pub open spec fn percent_of(received: u64, total: u64) -> int {
    if total == 0 {
        0
    } else if received >= total {
        100
    } else {
        (200 * received + total) / (2 * total)
    }
}

/// The percentage is the whole number that is nearest to the true one: it is off
/// by half a percent at most.
pub proof fn percent_is_the_nearest(received: u64, total: u64)
    requires
        0 < total,
        received <= total,
    ensures
        0 <= percent_of(received, total) <= 100,
        2 * percent_of(received, total) * total <= 200 * received + total,
        200 * received - total < 2 * percent_of(received, total) * total,
{
    let n = 200 * received + total;
    let d = 2 * total;
    let p = percent_of(received, total);
    if received < total {
        vstd::arithmetic::div_mod::lemma_fundamental_div_mod(n, d);
        vstd::arithmetic::div_mod::lemma_mod_bound(n, d);
        assert(d * p == 2 * p * total) by (nonlinear_arith)
            requires
                d == 2 * total,
        ;
        assert(p <= 100) by (nonlinear_arith)
            requires
                2 * p * total <= 200 * received + total,
                received < total,
        ;
        assert(p >= 0) by (nonlinear_arith)
            requires
                200 * received - total < 2 * p * total,
                total > 0,
                received >= 0,
        ;
    } else {
        assert(2 * p * total == 200 * total) by (nonlinear_arith)
            requires
                p == 100,
        ;
    }
}

/// A part of a whole in percent.
pub fn percent(received: u64, total: u64) -> (r: u8)
    ensures
        r == percent_of(received, total),
        r <= 100,
        0 < total && received <= total ==> 2 * r * total <= 200 * received + total && 200 * received
            - total < 2 * r * total,
{
    proof {
        if 0 < total && received <= total {
            percent_is_the_nearest(received, total);
        }
    }
    if total == 0 {
        0
    } else if received >= total {
        100
    } else {
        let n: u128 = 200 * (received as u128) + total as u128;
        let d: u128 = 2 * (total as u128);
        (n / d) as u8
    }
}

/// What a model's status contributes to the composite one; nothing where the
/// model is ready.
pub open spec fn model_part(status: ModelStatusView) -> Option<CompositeStatus> {
    match status {
        ModelStatusView::Missing { .. } => Some(CompositeStatus::ModelMissing),
        ModelStatusView::Failed { .. } => Some(CompositeStatus::ModelMissing),
        ModelStatusView::Downloading { received_bytes, total_bytes } => Some(
            CompositeStatus::Downloading(percent_of(received_bytes, total_bytes) as u8),
        ),
        ModelStatusView::Verifying => Some(CompositeStatus::Verifying),
        ModelStatusView::Ready => None,
    }
}

/// What a model's status contributes to the composite one; nothing where the
/// model is ready.
pub fn model_composite_status(status: &ModelStatus) -> (r: Option<CompositeStatus>)
    ensures
        r == model_part(status@),
{
    match status {
        ModelStatus::Missing { .. } => Some(CompositeStatus::ModelMissing),
        ModelStatus::Failed { .. } => Some(CompositeStatus::ModelMissing),
        ModelStatus::Downloading { received_bytes, total_bytes } => Some(
            CompositeStatus::Downloading(percent(*received_bytes, *total_bytes)),
        ),
        ModelStatus::Verifying => Some(CompositeStatus::Verifying),
        ModelStatus::Ready => None,
    }
}

/// The one status that the application's state comes down to: the first of these
/// that holds.
pub open spec fn composite_of(status: StatusView) -> CompositeStatus {
    if status.recording {
        CompositeStatus::Recording
    } else if status.permissions_missing.len() > 0 {
        CompositeStatus::PermissionsMissing
    } else if status.launch_blocked {
        CompositeStatus::RelaunchRequired
    } else if status.model matches Some(model) && model_part(model) is Some {
        model_part(status.model->Some_0)->Some_0
    } else {
        match status.engine {
            EngineView::Failed(_) => CompositeStatus::EngineFailed,
            EngineView::Loading => CompositeStatus::EngineLoading,
            EngineView::Ready => CompositeStatus::Ready,
        }
    }
}

/// The headline of the idle panel and the line under it.
pub open spec fn idle_lines(status: StatusView, labels: HotkeyLabels) -> (
    Seq<char>,
    Option<Seq<char>>,
) {
    match composite_of(status) {
        CompositeStatus::Recording => ("Listening…"@, None),
        CompositeStatus::PermissionsMissing => (
            "Permissions needed"@,
            Some("Grant the permissions Vuho needs to dictate."@),
        ),
        CompositeStatus::RelaunchRequired => (
            "Relaunch required"@,
            Some("Relaunch Vuho for the granted permissions to take effect."@),
        ),
        CompositeStatus::ModelMissing => ("Speech model needed"@, model_missing_line(status.model)),
        CompositeStatus::Downloading(pct) => (
            "Downloading speech model…"@,
            Some(decimal(pct as nat) + "% complete"@),
        ),
        CompositeStatus::Verifying => ("Verifying speech model…"@, None),
        CompositeStatus::EngineFailed => (
            "Engine unavailable"@,
            match status.engine {
                EngineView::Failed(message) => Some(message),
                _ => None,
            },
        ),
        CompositeStatus::EngineLoading => (
            "Getting ready"@,
            Some("Warming up the speech engine…"@),
        ),
        CompositeStatus::Ready => (
            match status.hotkey {
                HotkeyState::Failed(_) => {
                    "Hotkey inactive — use the menu-bar icon, or fix in Settings"@
                },
                HotkeyState::Active(preset) => "Press "@ + labels.text(preset) + " to dictate"@,
            },
            None,
        ),
    }
}

/// What is said of a model that is missing or failed.
pub open spec fn model_missing_line(model: Option<ModelStatusView>) -> Option<Seq<char>> {
    match model {
        Some(ModelStatusView::Missing { total_bytes }) => Some(
            "Download the "@ + mb_text(total_bytes) + " speech model to get started."@,
        ),
        Some(ModelStatusView::Failed { message }) => Some(message),
        _ => None,
    }
}

/// What is said of a model that is missing or failed: how much there is to
/// download, or what went wrong.
pub fn model_missing_headline(model: &Option<ModelStatus>) -> (r: (String, Option<String>))
    ensures
        r.0@ == "Speech model needed"@,
        text_view(r.1) == model_missing_line(
            match *model {
                Some(status) => Some(status@),
                None => None,
            },
        ),
{
    let sub = match model {
        Some(ModelStatus::Missing { total_bytes }) => Some(
            join3(
                "Download the ",
                format_mb(*total_bytes).as_str(),
                " speech model to get started.",
            ),
        ),
        Some(ModelStatus::Failed { message }) => Some(message.clone()),
        _ => None,
    };
    ("Speech model needed".to_owned(), sub)
}

/// What is said of an engine that could not be loaded.
pub fn engine_failed_headline(engine: &EngineState) -> (r: (String, Option<String>))
    ensures
        r.0@ == "Engine unavailable"@,
        text_view(r.1) == match engine@ {
            EngineView::Failed(message) => Some(message),
            _ => None,
        },
{
    let sub = match engine {
        EngineState::Failed(message) => Some(message.clone()),
        _ => None,
    };
    ("Engine unavailable".to_owned(), sub)
}

/// What is said when dictation can start: which hotkey to press, or that the
/// hotkey is not listened for.
pub fn ready_headline(hotkey: HotkeyState, labels: &HotkeyLabels) -> (r: (String, Option<String>))
    ensures
        r.0@ == match hotkey {
            HotkeyState::Failed(_) => {
                "Hotkey inactive — use the menu-bar icon, or fix in Settings"@
            },
            HotkeyState::Active(preset) => "Press "@ + labels.text(preset) + " to dictate"@,
        },
        r.1 is None,
{
    match hotkey {
        HotkeyState::Failed(_) => (
            "Hotkey inactive — use the menu-bar icon, or fix in Settings".to_owned(),
            None,
        ),
        HotkeyState::Active(preset) => (
            join3("Press ", labels.label(preset), " to dictate"),
            None,
        ),
    }
}

impl StatusModel {
    /// The state at launch: the engine is loading, nothing is known of the
    /// models, and `missing` permissions block the launch.
    pub fn at_launch(
        hotkey: HotkeySetting,
        missing: Vec<(Permission, Access)>,
        settings_load_warning: Option<String>,
    ) -> (r: Self)
        ensures
            r@ == launched(hotkey, missing@, text_view(settings_load_warning)),
            r@ == (StatusView {
                model: None,
                models: Seq::empty(),
                engine: EngineView::Loading,
                recording: false,
                hotkey: HotkeyState::Active(hotkey),
                permissions_missing: missing@,
                launch_blocked: missing@.len() > 0,
                settings_load_warning: text_view(settings_load_warning),
            }),
    {
        let launch_blocked = missing.len() > 0;
        let status = StatusModel {
            model: None,
            models: Vec::new(),
            engine: EngineState::Loading,
            recording: false,
            hotkey: HotkeyState::Active(hotkey),
            permissions_missing: missing,
            launch_blocked,
            settings_load_warning,
        };
        status
    }

    /// The one status that the application's state comes down to.
    pub fn composite(&self) -> (r: CompositeStatus)
        ensures
            r == composite_of(self@),
    {
        if self.recording {
            return CompositeStatus::Recording;
        }
        if self.permissions_missing.len() > 0 {
            return CompositeStatus::PermissionsMissing;
        }
        if self.launch_blocked {
            return CompositeStatus::RelaunchRequired;
        }
        if let Some(status) = &self.model {
            if let Some(composite) = model_composite_status(status) {
                return composite;
            }
        }
        match &self.engine {
            EngineState::Failed(_) => CompositeStatus::EngineFailed,
            EngineState::Loading => CompositeStatus::EngineLoading,
            EngineState::Ready => CompositeStatus::Ready,
        }
    }

    /// The headline of the idle panel and the line under it.
    pub fn idle_headline(&self, labels: &HotkeyLabels) -> (r: (String, Option<String>))
        ensures
            (r.0@, text_view(r.1)) == idle_lines(self@, *labels),
    {
        match self.composite() {
            CompositeStatus::Recording => ("Listening…".to_owned(), None),
            CompositeStatus::PermissionsMissing => (
                "Permissions needed".to_owned(),
                Some("Grant the permissions Vuho needs to dictate.".to_owned()),
            ),
            CompositeStatus::RelaunchRequired => (
                "Relaunch required".to_owned(),
                Some("Relaunch Vuho for the granted permissions to take effect.".to_owned()),
            ),
            CompositeStatus::ModelMissing => model_missing_headline(&self.model),
            CompositeStatus::Downloading(pct) => (
                "Downloading speech model…".to_owned(),
                Some(join2(decimal_text(pct as u64).as_str(), "% complete")),
            ),
            CompositeStatus::Verifying => ("Verifying speech model…".to_owned(), None),
            CompositeStatus::EngineFailed => engine_failed_headline(&self.engine),
            CompositeStatus::EngineLoading => (
                "Getting ready".to_owned(),
                Some("Warming up the speech engine…".to_owned()),
            ),
            CompositeStatus::Ready => ready_headline(self.hotkey, labels),
        }
    }
}

/// The title of the menu's first item.
pub open spec fn menu_title_text(status: CompositeStatus) -> Seq<char> {
    match status {
        CompositeStatus::PermissionsMissing => "Permissions…"@,
        CompositeStatus::RelaunchRequired => "Relaunch required"@,
        CompositeStatus::ModelMissing => "Model setup needed"@,
        CompositeStatus::Downloading(pct) => "Downloading model… "@ + decimal(pct as nat) + "%"@,
        CompositeStatus::Verifying => "Verifying model…"@,
        CompositeStatus::EngineFailed => "Engine unavailable"@,
        CompositeStatus::EngineLoading => "Loading model…"@,
        CompositeStatus::Recording => "Stop Listening"@,
        CompositeStatus::Ready => "Start Listening"@,
    }
}

impl CompositeStatus {
    /// The title of the menu's first item.
    pub fn menu_title(&self) -> (r: String)
        ensures
            r@ == menu_title_text(*self),
    {
        match *self {
            CompositeStatus::PermissionsMissing => "Permissions…".to_owned(),
            CompositeStatus::RelaunchRequired => "Relaunch required".to_owned(),
            CompositeStatus::ModelMissing => "Model setup needed".to_owned(),
            CompositeStatus::Downloading(pct) => join3(
                "Downloading model… ",
                decimal_text(pct as u64).as_str(),
                "%",
            ),
            CompositeStatus::Verifying => "Verifying model…".to_owned(),
            CompositeStatus::EngineFailed => "Engine unavailable".to_owned(),
            CompositeStatus::EngineLoading => "Loading model…".to_owned(),
            CompositeStatus::Recording => "Stop Listening".to_owned(),
            CompositeStatus::Ready => "Start Listening".to_owned(),
        }
    }

    /// Whether a click on the menu's first item does anything: it stops a live
    /// session, and it starts one where nothing but a missing permission could
    /// stand in the way.
    pub fn toggle_enabled(&self) -> (r: bool)
        ensures
            r == can_toggle(*self),
            r == (*self is Recording || *self is Ready || *self is PermissionsMissing),
    {
        match *self {
            CompositeStatus::Recording => true,
            CompositeStatus::Ready => true,
            CompositeStatus::PermissionsMissing => true,
            _ => false,
        }
    }
}

/// No two statuses have the same title, and none is without one.
pub proof fn menu_titles_tell_statuses_apart(a: CompositeStatus, b: CompositeStatus)
    ensures
        menu_title_text(a) == menu_title_text(b) ==> a == b,
        menu_title_text(a).len() > 0,
{
    reveal_strlit("Permissions…");
    reveal_strlit("Relaunch required");
    reveal_strlit("Model setup needed");
    reveal_strlit("Downloading model… ");
    reveal_strlit("%");
    reveal_strlit("Verifying model…");
    reveal_strlit("Engine unavailable");
    reveal_strlit("Loading model…");
    reveal_strlit("Stop Listening");
    reveal_strlit("Start Listening");
    let x = menu_title_text(a);
    let y = menu_title_text(b);
    if x == y {
        assert(x[0] == y[0]);
        if let (CompositeStatus::Downloading(p), CompositeStatus::Downloading(q)) = (a, b) {
            let head = "Downloading model… "@;
            assert(x.subrange(head.len() as int, x.len() - 1) =~= decimal(p as nat));
            assert(y.subrange(head.len() as int, y.len() - 1) =~= decimal(q as nat));
            decimal_is_injective(p as nat, q as nat);
        }
    }
}

/// What the idle panel shows.
#[derive(Debug, PartialEq, Eq)]
pub struct IdleBlock {
    pub headline: String,
    pub sub: Option<String>,
    /// The bytes received and expected, while the model is being downloaded.
    pub progress: Option<(u64, u64)>,
    /// Whether there is a button that leads to the settings, which is where the
    /// settings can help.
    pub open_settings: bool,
}

/// How far the download is, while the application's status is that there is one.
pub open spec fn progress_of(status: StatusView) -> Option<(u64, u64)> {
    if composite_of(status) is Downloading {
        match status.model {
            Some(ModelStatusView::Downloading { received_bytes, total_bytes }) => Some(
                (received_bytes, total_bytes),
            ),
            _ => None,
        }
    } else {
        None
    }
}

/// Whether the settings can help with a status.
pub open spec fn settings_can_help(status: CompositeStatus) -> bool {
    status is ModelMissing || status is EngineFailed || status is PermissionsMissing
}

/// What a [`UiCommand`] asks of the panel.
#[derive(Debug, Clone, Copy, PartialEq, Eq, Structural)]
pub enum PanelRequest {
    /// Open the panel, or close it, as a click on the menu-bar item does.
    Toggle,
    /// Open the panel on its settings tab.
    ShowSettings,
    /// Nothing.
    Leave,
}

/// The application's state after a [`UiCommand`].
pub open spec fn status_after(status: StatusView, command: UiCommandView) -> StatusView {
    match command {
        UiCommandView::OpenPanel => status,
        UiCommandView::ModelStatus(model) => StatusView { model: Some(model), ..status },
        UiCommandView::ModelList(models) => StatusView { models, ..status },
        UiCommandView::EngineReady(None) => StatusView { engine: EngineView::Ready, ..status },
        UiCommandView::EngineReady(Some(message)) => StatusView {
            engine: EngineView::Failed(message),
            ..status
        },
    }
}

/// What a [`UiCommand`] asks of the panel: a failed model brings up the settings,
/// unless the panel is open already; no other news about models does.
pub open spec fn request_of(command: UiCommandView, panel_shown: bool) -> PanelRequest {
    match command {
        UiCommandView::OpenPanel => PanelRequest::Toggle,
        UiCommandView::ModelStatus(model) => if model is Failed && !panel_shown {
            PanelRequest::ShowSettings
        } else {
            PanelRequest::Leave
        },
        _ => PanelRequest::Leave,
    }
}

impl StatusModel {
    /// What the idle panel shows.
    pub fn idle_block(&self, labels: &HotkeyLabels) -> (r: IdleBlock)
        ensures
            (r.headline@, text_view(r.sub)) == idle_lines(self@, *labels),
            r.progress == progress_of(self@),
            r.open_settings == settings_can_help(composite_of(self@)),
    {
        let (headline, sub) = self.idle_headline(labels);
        let composite = self.composite();
        let progress = match (composite, &self.model) {
            (
                CompositeStatus::Downloading(_),
                Some(ModelStatus::Downloading { received_bytes, total_bytes }),
            ) => Some((*received_bytes, *total_bytes)),
            _ => None,
        };
        let open_settings = match composite {
            CompositeStatus::ModelMissing => true,
            CompositeStatus::EngineFailed => true,
            CompositeStatus::PermissionsMissing => true,
            _ => false,
        };
        IdleBlock { headline, sub, progress, open_settings }
    }

    /// Take in what a background thread or the menu bar says, and say what it
    /// asks of the panel.
    pub fn absorb(&mut self, command: UiCommand, panel_shown: bool) -> (r: PanelRequest)
        ensures
            final(self)@ == status_after(old(self)@, command@),
            r == request_of(command@, panel_shown),
    {
        match command {
            UiCommand::OpenPanel => PanelRequest::Toggle,
            UiCommand::ModelStatus(status) => {
                let failed = match &status {
                    ModelStatus::Failed { .. } => true,
                    _ => false,
                };
                self.model = Some(status);
                if failed && !panel_shown {
                    PanelRequest::ShowSettings
                } else {
                    PanelRequest::Leave
                }
            },
            UiCommand::ModelList(models) => {
                self.models = models;
                PanelRequest::Leave
            },
            UiCommand::EngineReady(Ok(_)) => {
                self.engine = EngineState::Ready;
                PanelRequest::Leave
            },
            UiCommand::EngineReady(Err(message)) => {
                self.engine = EngineState::Failed(message);
                PanelRequest::Leave
            },
        }
    }

    /// Take in which permissions are missing, and say whether that is news.
    pub fn refresh_permissions(&mut self, missing: Vec<(Permission, Access)>) -> (r: bool)
        ensures
            (final(self)@, r) == refreshed(old(self)@, missing@),
            final(self)@ == (StatusView { permissions_missing: missing@, ..old(self)@ }),
            r == (old(self)@.permissions_missing != missing@),
    {
        let same = same_permissions(&self.permissions_missing, &missing);
        if !same {
            self.permissions_missing = missing;
        }
        !same
    }
}

/// Whether two lists of permissions are the same.
fn same_permissions(a: &Vec<(Permission, Access)>, b: &Vec<(Permission, Access)>) -> (r: bool)
    ensures
        r == (a@ == b@),
{
    if a.len() != b.len() {
        return false;
    }
    let mut i: usize = 0;
    while i < a.len()
        invariant
            i <= a@.len(),
            a@.len() == b@.len(),
            forall|j: int| 0 <= j < i ==> a@[j] == b@[j],
        decreases a@.len() - i,
    {
        if a[i].0 != b[i].0 || a[i].1 != b[i].1 {
            return false;
        }
        i = i + 1;
    }
    assert(a@ =~= b@);
    true
}

/// A live session outranks everything else, and it can always be stopped.
pub proof fn a_live_session_can_always_be_stopped(status: StatusView)
    requires
        status.recording,
    ensures
        composite_of(status) is Recording,
        menu_title_text(composite_of(status)) == "Stop Listening"@,
{
}

/// Each condition outranks all that come after it: permissions before a
/// relaunch, a relaunch before the model, the model before the engine.
pub proof fn conditions_rank_in_order(status: StatusView)
    requires
        !status.recording,
    ensures
        status.permissions_missing.len() > 0 ==> composite_of(status) is PermissionsMissing,
        status.permissions_missing.len() == 0 && status.launch_blocked ==> composite_of(
            status,
        ) is RelaunchRequired,
        status.permissions_missing.len() == 0 && !status.launch_blocked && (status.model matches Some(
            model,
        ) && !(model is Ready)) ==> composite_of(status) == model_part(
            status.model->Some_0,
        )->Some_0,
{
}

/// Dictation is offered exactly if nothing stands in its way.
pub proof fn ready_means_nothing_stands_in_the_way(status: StatusView)
    ensures
        composite_of(status) is Ready <==> (!status.recording && status.permissions_missing.len()
            == 0 && !status.launch_blocked && (status.model is None || status.model->Some_0 is Ready)
            && status.engine is Ready),
{
}

/// A launch that permissions blocked asks for them first and, once they are all
/// granted, for a relaunch, whatever the model and the engine say meanwhile.
pub proof fn a_blocked_launch_asks_for_permissions_and_a_relaunch(
    at_launch: StatusView,
    later: StatusView,
)
    requires
        at_launch.launch_blocked == (at_launch.permissions_missing.len() > 0),
        at_launch.permissions_missing.len() > 0,
        !at_launch.recording && !later.recording,
        later.launch_blocked == at_launch.launch_blocked,
    ensures
        composite_of(at_launch) is PermissionsMissing,
        later.permissions_missing.len() == 0 ==> composite_of(later) is RelaunchRequired,
{
}

/// There is a progress bar exactly while the status is that of a download.
pub proof fn a_download_always_shows_its_progress(status: StatusView)
    ensures
        progress_of(status) is Some <==> composite_of(status) is Downloading,
        progress_of(status) matches Some((received, total)) ==> composite_of(status)
            == CompositeStatus::Downloading(percent_of(received, total) as u8),
{
}

/// Nothing of nothing is 0 percent, and all or more than all is 100.
pub proof fn percentages_start_at_0_and_end_at_100(received: u64, total: u64)
    ensures
        total == 0 ==> percent_of(received, total) == 0,
        0 < total <= received ==> percent_of(received, total) == 100,
        total > 0 ==> percent_of(0, total) == 0,
{
    if total > 0 {
        percent_is_the_nearest(0, total);
        assert(percent_of(0, total) < 1) by (nonlinear_arith)
            requires
                2 * percent_of(0, total) * total <= total,
                total > 0,
        ;
    }
}

/// What a model contributes to the status: a missing and a failed one that it is
/// missing, one that is being downloaded how far it is, one that is being checked
/// that it is, and a ready one nothing.
pub proof fn what_a_model_contributes(status: ModelStatusView)
    ensures
        status is Missing || status is Failed <==> model_part(status) == Some(
            CompositeStatus::ModelMissing,
        ),
        status is Verifying <==> model_part(status) == Some(CompositeStatus::Verifying),
        status is Ready <==> model_part(status) is None,
        status matches ModelStatusView::Downloading { received_bytes, total_bytes } ==> (
        model_part(status) matches Some(CompositeStatus::Downloading(pct)) && pct == percent_of(
            received_bytes,
            total_bytes,
        )),
{
    if let ModelStatusView::Downloading { received_bytes, total_bytes } = status {
        if 0 < total_bytes && received_bytes <= total_bytes {
            percent_is_the_nearest(received_bytes, total_bytes);
        }
    }
}

/// The status names the first thing that stands in the way of dictation, looked
/// for in this order: a live session, permissions, a relaunch, the model, the
/// engine.
pub proof fn the_first_obstacle_names_the_status(status: StatusView)
    ensures
        composite_of(status) is Recording <==> status.recording,
        composite_of(status) is PermissionsMissing <==> !status.recording
            && status.permissions_missing.len() > 0,
        composite_of(status) is RelaunchRequired <==> !status.recording
            && status.permissions_missing.len() == 0 && status.launch_blocked,
        ({
            let free = !status.recording && status.permissions_missing.len() == 0
                && !status.launch_blocked;
            let model_is_fine = status.model is None || status.model == Some(ModelStatusView::Ready);
            &&& composite_of(status) is ModelMissing <==> free && (status.model matches Some(m) && (
            m is Missing || m is Failed))
            &&& composite_of(status) is Verifying <==> free && status.model == Some(
                ModelStatusView::Verifying,
            )
            &&& composite_of(status) is Downloading <==> free && (status.model matches Some(m)
                && m is Downloading)
            &&& composite_of(status) is EngineFailed <==> free && model_is_fine
                && status.engine is Failed
            &&& composite_of(status) is EngineLoading <==> free && model_is_fine
                && status.engine is Loading
            &&& composite_of(status) is Ready <==> free && model_is_fine && status.engine is Ready
        }),
{
}

/// What the idle panel says. Where something went wrong it says what, in the words
/// of whoever reported it; where there is something to download, how much; while
/// it is being downloaded, how far; and once dictation can start, which key to
/// press, by its own words, or that none is listened for.
pub proof fn what_the_idle_panel_says(status: StatusView, labels: HotkeyLabels)
    ensures
        ({
            let (headline, sub) = idle_lines(status, labels);
            match composite_of(status) {
                CompositeStatus::Recording => headline == "Listening…"@ && sub is None,
                CompositeStatus::PermissionsMissing => headline == "Permissions needed"@ && sub
                    == Some("Grant the permissions Vuho needs to dictate."@),
                CompositeStatus::RelaunchRequired => headline == "Relaunch required"@ && sub
                    == Some("Relaunch Vuho for the granted permissions to take effect."@),
                CompositeStatus::ModelMissing => {
                    &&& headline == "Speech model needed"@
                    &&& status.model matches Some(ModelStatusView::Failed { message }) ==> sub
                        == Some(message)
                    &&& status.model matches Some(ModelStatusView::Missing { total_bytes }) ==> sub
                        == Some(
                        "Download the "@ + mb_text(total_bytes)
                            + " speech model to get started."@,
                    )
                },
                CompositeStatus::Downloading(pct) => headline == "Downloading speech model…"@ && sub
                    == Some(decimal(pct as nat) + "% complete"@),
                CompositeStatus::Verifying => headline == "Verifying speech model…"@ && sub is None,
                CompositeStatus::EngineFailed => {
                    &&& headline == "Engine unavailable"@
                    &&& status.engine matches EngineView::Failed(message) ==> sub == Some(message)
                },
                CompositeStatus::EngineLoading => headline == "Getting ready"@ && sub == Some(
                    "Warming up the speech engine…"@,
                ),
                CompositeStatus::Ready => {
                    &&& sub is None
                    &&& status.hotkey matches HotkeyState::Active(preset) ==> headline == "Press "@
                        + labels.text(preset) + " to dictate"@
                    &&& status.hotkey is Failed ==> headline
                        == "Hotkey inactive — use the menu-bar icon, or fix in Settings"@
                },
            }
        }),
{
}

/// The progress bar shows the very bytes of the download, and there is one exactly
/// while the download is what the application waits for.
pub proof fn the_bar_shows_the_bytes_of_the_download(status: StatusView)
    ensures
        !status.recording && status.permissions_missing.len() == 0 && !status.launch_blocked ==> (
        status.model matches Some(ModelStatusView::Downloading { received_bytes, total_bytes })
            ==> progress_of(status) == Some((received_bytes, total_bytes))),
        status.recording || status.permissions_missing.len() > 0 || status.launch_blocked
            || status.model is None || !(status.model->Some_0 is Downloading) ==> progress_of(
            status,
        ) is None,
{
}

/// The way to the settings is offered exactly where they can help: a missing
/// model, an engine that failed, missing permissions.
pub proof fn the_settings_are_offered_where_they_help(status: CompositeStatus)
    ensures
        match status {
            CompositeStatus::ModelMissing => settings_can_help(status),
            CompositeStatus::EngineFailed => settings_can_help(status),
            CompositeStatus::PermissionsMissing => settings_can_help(status),
            _ => !settings_can_help(status),
        },
{
}

/// What the menu's first item is called.
pub proof fn what_the_menu_says(pct: u8)
    ensures
        menu_title_text(CompositeStatus::Ready) == "Start Listening"@,
        menu_title_text(CompositeStatus::Recording) == "Stop Listening"@,
        menu_title_text(CompositeStatus::PermissionsMissing) == "Permissions…"@,
        menu_title_text(CompositeStatus::RelaunchRequired) == "Relaunch required"@,
        menu_title_text(CompositeStatus::ModelMissing) == "Model setup needed"@,
        menu_title_text(CompositeStatus::Downloading(pct)) == "Downloading model… "@ + decimal(
            pct as nat,
        ) + "%"@,
        menu_title_text(CompositeStatus::Verifying) == "Verifying model…"@,
        menu_title_text(CompositeStatus::EngineFailed) == "Engine unavailable"@,
        menu_title_text(CompositeStatus::EngineLoading) == "Loading model…"@,
{
}

/// Whether a click on the menu's first item does anything.
pub open spec fn can_toggle(status: CompositeStatus) -> bool {
    status is Recording || status is Ready || status is PermissionsMissing
}

/// The menu's first item can be clicked exactly where that stops a session, starts
/// one, or brings up what is asked of the user.
pub proof fn the_menu_can_be_clicked_where_it_helps(status: CompositeStatus)
    ensures
        match status {
            CompositeStatus::Recording => can_toggle(status),
            CompositeStatus::Ready => can_toggle(status),
            CompositeStatus::PermissionsMissing => can_toggle(status),
            _ => !can_toggle(status),
        },
{
}

/// Each piece of news lands where it belongs and changes nothing else: a model's
/// status, the list of models, or how the engine's load ended. A click on the
/// menu-bar item is no news.
pub proof fn news_lands_where_it_belongs(status: StatusView, command: UiCommandView)
    ensures
        ({
            let after = status_after(status, command);
            &&& after.recording == status.recording
            &&& after.hotkey == status.hotkey
            &&& after.permissions_missing == status.permissions_missing
            &&& after.launch_blocked == status.launch_blocked
            &&& after.settings_load_warning == status.settings_load_warning
            &&& match command {
                UiCommandView::ModelStatus(model) => after.model == Some(model),
                _ => after.model == status.model,
            }
            &&& match command {
                UiCommandView::ModelList(models) => after.models == models,
                _ => after.models == status.models,
            }
            &&& match command {
                UiCommandView::EngineReady(Some(message)) => after.engine == EngineView::Failed(
                    message,
                ),
                UiCommandView::EngineReady(None) => after.engine is Ready,
                _ => after.engine == status.engine,
            }
        }),
{
}

/// A click on the menu-bar item opens or closes the panel; a model that failed
/// brings up the settings unless the panel is on screen; nothing else touches the
/// panel.
pub proof fn only_a_click_or_a_failure_moves_the_panel(command: UiCommandView, panel_shown: bool)
    ensures
        request_of(command, panel_shown) is Toggle <==> command is OpenPanel,
        request_of(command, panel_shown) is ShowSettings <==> !panel_shown && (
        command matches UiCommandView::ModelStatus(model) && model is Failed),
        request_of(command, panel_shown) is Leave <==> !(command is OpenPanel) && (panel_shown || !(
        command matches UiCommandView::ModelStatus(model) && model is Failed)),
{
}

/// The state at launch.
pub open spec fn launched(
    hotkey: HotkeySetting,
    missing: Seq<(Permission, Access)>,
    warning: Option<Seq<char>>,
) -> StatusView {
    StatusView {
        model: None,
        models: Seq::empty(),
        engine: EngineView::Loading,
        recording: false,
        hotkey: HotkeyState::Active(hotkey),
        permissions_missing: missing,
        launch_blocked: missing.len() > 0,
        settings_load_warning: warning,
    }
}

/// A launch is blocked exactly if permissions are missing then, and asks for them;
/// otherwise it waits for the engine. Nothing is known of the models yet, the
/// chosen hotkey is at hand, and what went wrong with the settings is kept.
pub proof fn a_launch_is_blocked_exactly_by_permissions(
    hotkey: HotkeySetting,
    missing: Seq<(Permission, Access)>,
    warning: Option<Seq<char>>,
)
    ensures
        ({
            let status = launched(hotkey, missing, warning);
            &&& status.launch_blocked <==> missing.len() > 0
            &&& status.permissions_missing == missing
            &&& status.hotkey == HotkeyState::Active(hotkey)
            &&& status.settings_load_warning == warning
            &&& status.models.len() == 0 && status.model is None && !status.recording
            &&& missing.len() > 0 ==> composite_of(status) is PermissionsMissing
            &&& missing.len() == 0 ==> composite_of(status) is EngineLoading
        }),
{
}

/// The view of the application's state keeps everything it holds.
pub proof fn views_of_the_status_keep_everything(status: StatusModel, i: int)
    ensures
        status.model is None <==> status@.model is None,
        status.model matches Some(model) ==> status@.model == Some(model@),
        status@.models.len() == status.models@.len(),
        0 <= i < status.models@.len() ==> status@.models[i] == status.models@[i]@,
        match status.engine {
            EngineState::Loading => status@.engine is Loading,
            EngineState::Ready => status@.engine is Ready,
            EngineState::Failed(message) => status@.engine == EngineView::Failed(message@),
        },
        status@.recording == status.recording,
        status@.hotkey == status.hotkey,
        status@.permissions_missing == status.permissions_missing@,
        status@.launch_blocked == status.launch_blocked,
        status.settings_load_warning is None <==> status@.settings_load_warning is None,
        status.settings_load_warning matches Some(text) ==> status@.settings_load_warning == Some(
            text@,
        ),
{
}

/// The state once it is known which permissions are missing, and whether that is
/// news.
pub open spec fn refreshed(status: StatusView, missing: Seq<(Permission, Access)>) -> (
    StatusView,
    bool,
) {
    (
        StatusView { permissions_missing: missing, ..status },
        status.permissions_missing != missing,
    )
}

/// A look at the permissions changes what is known of them and nothing else, in
/// particular not whether the launch was blocked; and looking again with the same
/// result is no news.
pub proof fn looking_twice_is_no_news(status: StatusView, missing: Seq<(Permission, Access)>)
    ensures
        ({
            let (after, news) = refreshed(status, missing);
            &&& after.permissions_missing == missing
            &&& after.launch_blocked == status.launch_blocked
            &&& after.model == status.model && after.models == status.models
            &&& after.engine == status.engine && after.recording == status.recording
            &&& after.hotkey == status.hotkey
            &&& after.settings_load_warning == status.settings_load_warning
            &&& !news <==> status.permissions_missing == missing
            &&& refreshed(after, missing) == (after, false)
        }),
{
}

/// The state of the hotkey after an attempt to listen for it.
pub open spec fn hotkey_started(preset: HotkeySetting, started: bool) -> HotkeyState {
    if started {
        HotkeyState::Active(preset)
    } else {
        HotkeyState::Failed(preset)
    }
}

/// A hotkey is active exactly if it is listened for, and stays the chosen one
/// either way.
pub proof fn a_hotkey_is_active_if_it_is_listened_for(preset: HotkeySetting)
    ensures
        hotkey_started(preset, true) == HotkeyState::Active(preset),
        hotkey_started(preset, false) == HotkeyState::Failed(preset),
{
}

} // verus!
