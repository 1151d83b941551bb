use vuho_ui::app_status::{
    hotkey_after_start, percent, CompositeStatus, EngineState, HotkeyState, PanelRequest,
    StatusModel,
};
use vuho_ui::domain::{ModelAvailability, ModelStatus, UiCommand};
use vuho_ui::hotkey_presets::{HotkeyLabels, HotkeySetting};
use vuho_ui::readiness::{format_mb, Access, Permission};

fn labels() -> HotkeyLabels {
    HotkeyLabels {
        caps_lock: "CapsLock".to_owned(),
        option_space: "⌥Space".to_owned(),
        control_option_space: "⌃⌥Space".to_owned(),
        command_shift_space: "⌘⇧Space".to_owned(),
        control_option_d: "⌃⌥D".to_owned(),
    }
}

/// A model in the fully-ready state, so that each test overrides only the fields
/// it is about.
fn base_model() -> StatusModel {
    StatusModel {
        model: Some(ModelStatus::Ready),
        models: Vec::new(),
        engine: EngineState::Ready,
        recording: false,
        hotkey: HotkeyState::Active(HotkeySetting::CapsLock),
        permissions_missing: Vec::new(),
        launch_blocked: false,
        settings_load_warning: None,
    }
}

#[test]
fn recording_outranks_every_other_state() {
    let mut model = base_model();
    model.recording = true;
    model.permissions_missing = vec![(Permission::Microphone, Access::Denied)];
    model.launch_blocked = true;
    model.model = Some(ModelStatus::Failed {
        message: "boom".to_owned(),
    });
    model.engine = EngineState::Failed("boom".to_owned());
    assert_eq!(model.composite(), CompositeStatus::Recording);
}

#[test]
fn permissions_missing_outranks_relaunch_model_and_engine() {
    let mut model = base_model();
    model.permissions_missing = vec![(Permission::Microphone, Access::Denied)];
    model.launch_blocked = true;
    model.model = Some(ModelStatus::Failed {
        message: "boom".to_owned(),
    });
    model.engine = EngineState::Failed("boom".to_owned());
    assert_eq!(model.composite(), CompositeStatus::PermissionsMissing);
}

#[test]
fn relaunch_required_when_launch_blocked_and_nothing_missing() {
    let mut model = base_model();
    model.launch_blocked = true;
    assert_eq!(model.composite(), CompositeStatus::RelaunchRequired);
}

#[test]
fn relaunch_required_outranks_model_and_engine_state() {
    let mut model = base_model();
    model.launch_blocked = true;
    model.model = Some(ModelStatus::Missing { total_bytes: 100 });
    model.engine = EngineState::Failed("boom".to_owned());
    assert_eq!(model.composite(), CompositeStatus::RelaunchRequired);
}

#[test]
fn launch_blocked_with_permissions_missing_is_still_permissions_missing() {
    let mut model = base_model();
    model.launch_blocked = true;
    model.permissions_missing = vec![(Permission::Accessibility, Access::Promptable)];
    assert_eq!(model.composite(), CompositeStatus::PermissionsMissing);
}

#[test]
fn model_missing_from_missing_variant() {
    let mut model = base_model();
    model.model = Some(ModelStatus::Missing { total_bytes: 474_000_000 });
    assert_eq!(model.composite(), CompositeStatus::ModelMissing);
}

#[test]
fn model_missing_from_failed_variant() {
    let mut model = base_model();
    model.model = Some(ModelStatus::Failed {
        message: "disk full".to_owned(),
    });
    assert_eq!(model.composite(), CompositeStatus::ModelMissing);
}

#[test]
fn model_missing_outranks_downloading_verifying_and_engine() {
    let mut model = base_model();
    model.model = Some(ModelStatus::Missing { total_bytes: 100 });
    model.engine = EngineState::Failed("boom".to_owned());
    assert_eq!(model.composite(), CompositeStatus::ModelMissing);
}

#[test]
fn downloading_rounds_the_percent() {
    let mut model = base_model();
    model.model = Some(ModelStatus::Downloading {
        received_bytes: 43,
        total_bytes: 100,
    });
    assert_eq!(model.composite(), CompositeStatus::Downloading(43));
}

#[test]
fn downloading_rounds_half_up() {
    let mut model = base_model();
    model.model = Some(ModelStatus::Downloading {
        received_bytes: 1,
        total_bytes: 3,
    });
    assert_eq!(model.composite(), CompositeStatus::Downloading(33));
}

#[test]
fn downloading_outranks_verifying_and_engine_state() {
    let mut model = base_model();
    model.model = Some(ModelStatus::Downloading {
        received_bytes: 1,
        total_bytes: 2,
    });
    model.engine = EngineState::Failed("boom".to_owned());
    assert_eq!(model.composite(), CompositeStatus::Downloading(50));
}

#[test]
fn verifying_outranks_engine_state() {
    let mut model = base_model();
    model.model = Some(ModelStatus::Verifying);
    model.engine = EngineState::Failed("boom".to_owned());
    assert_eq!(model.composite(), CompositeStatus::Verifying);
}

#[test]
fn model_ready_contributes_nothing_model_related() {
    let mut model = base_model();
    model.model = Some(ModelStatus::Ready);
    model.engine = EngineState::Loading;
    assert_eq!(model.composite(), CompositeStatus::EngineLoading);
}

#[test]
fn model_none_contributes_nothing_model_related() {
    let mut model = base_model();
    model.model = None;
    model.engine = EngineState::Loading;
    assert_eq!(model.composite(), CompositeStatus::EngineLoading);
}

#[test]
fn recording_outranks_engine_failed() {
    let mut model = base_model();
    model.engine = EngineState::Failed("boom".to_owned());
    model.recording = true;
    assert_eq!(model.composite(), CompositeStatus::Recording);
}

#[test]
fn recording_outranks_engine_loading() {
    let mut model = base_model();
    model.engine = EngineState::Loading;
    model.recording = true;
    assert_eq!(model.composite(), CompositeStatus::Recording);
}

#[test]
fn recording_true_is_recording() {
    let mut model = base_model();
    model.recording = true;
    assert_eq!(model.composite(), CompositeStatus::Recording);
}

#[test]
fn fully_idle_is_ready() {
    assert_eq!(base_model().composite(), CompositeStatus::Ready);
}

fn all_statuses() -> Vec<CompositeStatus> {
    vec![
        CompositeStatus::PermissionsMissing,
        CompositeStatus::RelaunchRequired,
        CompositeStatus::ModelMissing,
        CompositeStatus::Downloading(43),
        CompositeStatus::Verifying,
        CompositeStatus::EngineFailed,
        CompositeStatus::EngineLoading,
        CompositeStatus::Recording,
        CompositeStatus::Ready,
    ]
}

#[test]
fn menu_titles_are_distinct_and_nonempty() {
    let all = all_statuses();
    let titles: Vec<String> = all.iter().map(CompositeStatus::menu_title).collect();
    for title in &titles {
        assert!(!title.is_empty());
    }
    let mut unique = titles.clone();
    unique.sort_unstable();
    unique.dedup();
    assert_eq!(
        unique.len(),
        titles.len(),
        "menu titles must be distinct: {titles:?}"
    );
}

#[test]
fn relaunch_required_menu_title_is_exact() {
    assert_eq!(
        CompositeStatus::RelaunchRequired.menu_title(),
        "Relaunch required"
    );
}

#[test]
fn toggle_enabled_true_exactly_for_recording_ready_and_permissions_missing() {
    for status in all_statuses() {
        let expected = matches!(
            status,
            CompositeStatus::Recording
                | CompositeStatus::Ready
                | CompositeStatus::PermissionsMissing
        );
        assert_eq!(
            status.toggle_enabled(),
            expected,
            "toggle_enabled mismatch for {status:?}"
        );
    }
}

#[test]
fn idle_headline_hotkey_failed() {
    let mut model = base_model();
    model.hotkey = HotkeyState::Failed(HotkeySetting::CapsLock);
    let (headline, sub) = model.idle_headline(&labels());
    assert!(headline.contains("Hotkey inactive"));
    assert!(headline.contains("Settings"));
    assert!(sub.is_none());
}

#[test]
fn idle_headline_ready_uses_the_configured_preset_label_not_a_hardcoded_one() {
    let mut model = base_model();
    model.hotkey = HotkeyState::Active(HotkeySetting::ControlOptionSpace);
    let labels = labels();
    let (headline, _) = model.idle_headline(&labels);
    assert!(
        headline.contains(labels.label(HotkeySetting::ControlOptionSpace)),
        "expected preset label {:?} in headline {headline:?}",
        labels.label(HotkeySetting::ControlOptionSpace)
    );
    assert!(
        !headline.contains("CapsLock"),
        "headline must not hardcode a different preset's label: {headline:?}"
    );
    assert_eq!(headline, "Press ⌃⌥Space to dictate");
}

#[test]
fn idle_headline_downloading_includes_the_percent() {
    let mut model = base_model();
    model.model = Some(ModelStatus::Downloading {
        received_bytes: 43,
        total_bytes: 100,
    });
    let (_, sub) = model.idle_headline(&labels());
    let sub = sub.expect("downloading state has a sub-line");
    assert!(sub.contains("43%"), "expected percent in sub-line: {sub:?}");
}

#[test]
fn idle_headline_model_missing_mentions_the_size() {
    let mut model = base_model();
    model.model = Some(ModelStatus::Missing {
        total_bytes: 474_000_000,
    });
    let (_, sub) = model.idle_headline(&labels());
    let sub = sub.expect("missing-model state has a sub-line");
    assert!(
        sub.contains(&format_mb(474_000_000)),
        "expected size in sub-line: {sub:?}"
    );
}

#[test]
fn idle_headline_engine_loading_is_distinct_from_menu_title() {
    let mut model = base_model();
    model.engine = EngineState::Loading;
    let (headline, sub) = model.idle_headline(&labels());
    assert_eq!(headline, "Getting ready");
    assert_eq!(sub.as_deref(), Some("Warming up the speech engine…"));
    assert_eq!(
        CompositeStatus::EngineLoading.menu_title(),
        "Loading model…"
    );
}

#[test]
fn every_idle_headline_is_exact() {
    let mut model = base_model();
    assert_eq!(
        model.idle_headline(&labels()),
        ("Press CapsLock to dictate".to_owned(), None)
    );
    model.recording = true;
    assert_eq!(model.idle_headline(&labels()), ("Listening…".to_owned(), None));
    model.recording = false;
    model.engine = EngineState::Failed("no memory".to_owned());
    assert_eq!(
        model.idle_headline(&labels()),
        ("Engine unavailable".to_owned(), Some("no memory".to_owned()))
    );
    model.model = Some(ModelStatus::Verifying);
    assert_eq!(
        model.idle_headline(&labels()),
        ("Verifying speech model…".to_owned(), None)
    );
    model.model = Some(ModelStatus::Missing { total_bytes: 474_000_000 });
    assert_eq!(
        model.idle_headline(&labels()),
        (
            "Speech model needed".to_owned(),
            Some("Download the 474 MB speech model to get started.".to_owned())
        )
    );
    model.model = Some(ModelStatus::Failed { message: "disk full".to_owned() });
    assert_eq!(
        model.idle_headline(&labels()),
        ("Speech model needed".to_owned(), Some("disk full".to_owned()))
    );
    model.launch_blocked = true;
    assert_eq!(
        model.idle_headline(&labels()),
        (
            "Relaunch required".to_owned(),
            Some("Relaunch Vuho for the granted permissions to take effect.".to_owned())
        )
    );
    model.permissions_missing = vec![(Permission::Microphone, Access::Denied)];
    assert_eq!(
        model.idle_headline(&labels()),
        (
            "Permissions needed".to_owned(),
            Some("Grant the permissions Vuho needs to dictate.".to_owned())
        )
    );
}

#[test]
fn percent_is_the_nearest_whole_number() {
    assert_eq!(percent(0, 0), 0);
    assert_eq!(percent(5, 0), 0);
    assert_eq!(percent(0, 10), 0);
    assert_eq!(percent(1, 200), 1);
    assert_eq!(percent(99, 200), 50);
    assert_eq!(percent(199, 200), 100);
    assert_eq!(percent(989, 1000), 99);
    assert_eq!(percent(10, 10), 100);
    assert_eq!(percent(11, 10), 100);
    assert_eq!(percent(u64::MAX - 1, u64::MAX), 100);
    assert_eq!(percent(u64::MAX / 2, u64::MAX), 50);
}

#[test]
fn menu_titles_carry_the_percent() {
    assert_eq!(
        CompositeStatus::Downloading(0).menu_title(),
        "Downloading model… 0%"
    );
    assert_eq!(
        CompositeStatus::Downloading(100).menu_title(),
        "Downloading model… 100%"
    );
}

#[test]
fn a_blocked_launch_asks_for_permissions_first_and_a_relaunch_afterwards() {
    let missing = vec![(Permission::Microphone, Access::Promptable)];
    let mut model = StatusModel::at_launch(HotkeySetting::CapsLock, missing, None);
    assert!(model.launch_blocked);
    assert_eq!(model.composite(), CompositeStatus::PermissionsMissing);
    assert!(model.refresh_permissions(Vec::new()));
    assert_eq!(model.composite(), CompositeStatus::RelaunchRequired);
    assert!(!model.refresh_permissions(Vec::new()));

    let free = StatusModel::at_launch(HotkeySetting::CapsLock, Vec::new(), None);
    assert!(!free.launch_blocked);
    assert_eq!(free.composite(), CompositeStatus::EngineLoading);
}

#[test]
fn a_changed_access_is_news() {
    let mut model = base_model();
    assert!(model.refresh_permissions(vec![(Permission::Microphone, Access::Promptable)]));
    assert!(model.refresh_permissions(vec![(Permission::Microphone, Access::Denied)]));
    assert!(!model.refresh_permissions(vec![(Permission::Microphone, Access::Denied)]));
    assert_eq!(
        model.permissions_missing,
        vec![(Permission::Microphone, Access::Denied)]
    );
}

#[test]
fn the_idle_block_shows_progress_and_the_way_to_the_settings() {
    let mut model = base_model();
    model.model = Some(ModelStatus::Downloading {
        received_bytes: 43,
        total_bytes: 100,
    });
    let block = model.idle_block(&labels());
    assert_eq!(block.headline, "Downloading speech model…");
    assert_eq!(block.sub.as_deref(), Some("43% complete"));
    assert_eq!(block.progress, Some((43, 100)));
    assert!(!block.open_settings);

    model.model = Some(ModelStatus::Failed { message: "disk full".to_owned() });
    let block = model.idle_block(&labels());
    assert_eq!(block.progress, None);
    assert!(block.open_settings);

    model.model = Some(ModelStatus::Ready);
    model.engine = EngineState::Failed("boom".to_owned());
    assert!(model.idle_block(&labels()).open_settings);
    model.engine = EngineState::Loading;
    assert!(!model.idle_block(&labels()).open_settings);
    model.permissions_missing = vec![(Permission::Microphone, Access::Denied)];
    assert!(model.idle_block(&labels()).open_settings);
}

#[test]
fn only_a_failed_model_brings_up_the_settings_of_a_closed_panel() {
    let failed = || UiCommand::ModelStatus(ModelStatus::Failed { message: "boom".to_owned() });
    let mut model = base_model();
    assert_eq!(model.absorb(failed(), false), PanelRequest::ShowSettings);
    assert_eq!(model.absorb(failed(), true), PanelRequest::Leave);
    assert_eq!(model.composite(), CompositeStatus::ModelMissing);
    assert_eq!(
        model.absorb(UiCommand::ModelStatus(ModelStatus::Verifying), false),
        PanelRequest::Leave
    );
    assert_eq!(model.composite(), CompositeStatus::Verifying);
    assert_eq!(model.absorb(UiCommand::OpenPanel, false), PanelRequest::Toggle);
    let models = vec![ModelAvailability {
        id: "a".to_owned(),
        display_name: "A".to_owned(),
        status: ModelStatus::Ready,
        source: None,
        total_bytes: 1,
        supported_on_this_os: true,
    }];
    assert_eq!(model.absorb(UiCommand::ModelList(models.clone()), false), PanelRequest::Leave);
    assert_eq!(model.models, models);
    assert_eq!(
        model.absorb(UiCommand::EngineReady(Err("boom".to_owned())), false),
        PanelRequest::Leave
    );
    assert_eq!(model.engine, EngineState::Failed("boom".to_owned()));
    model.absorb(UiCommand::EngineReady(Ok(())), false);
    assert_eq!(model.engine, EngineState::Ready);
}

#[test]
fn the_hotkey_is_active_exactly_if_it_started() {
    assert_eq!(
        hotkey_after_start(HotkeySetting::OptionSpace, true),
        HotkeyState::Active(HotkeySetting::OptionSpace)
    );
    assert_eq!(
        hotkey_after_start(HotkeySetting::OptionSpace, false),
        HotkeyState::Failed(HotkeySetting::OptionSpace)
    );
}
