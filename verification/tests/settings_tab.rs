use vuho_ui::app_status::{EngineState, HotkeyState, StatusModel};
use vuho_ui::domain::{
    Backend, Manifest, ManifestModel, ModelAvailability, ModelSource, ModelStatus, ProvisionCommand,
};
use vuho_ui::hotkey_presets::{HotkeyConfig, HotkeyLabels, HotkeySetting};
use vuho_ui::model_rows::{
    delete_of, download_of, engine_state, min_macos_label, model_display_name, model_list,
    model_list_row,
    model_options, model_row, model_row_control, row_control, selectable, source_label,
    ModelRowControl,
};
use vuho_ui::parts::{Action, Fill, Part};
use vuho_ui::provisioning::{
    on_delete_command, on_download_command, phase_rows, Deletion, Phase, ProvisionOutcome,
};
use vuho_ui::readiness::{
    missing_permissions, Access, InputMonitoringAccess, LiveAccess, MicAuthStatus, Permission,
};
use vuho_ui::settings_tab::{
    devices_or_none, hotkey_label, hotkey_row, mic_display, mic_label, mic_row, permission_access,
    permission_row, permission_row_kind, permissions_section, shows_speech_model_section,
    HotkeyChange, MicDisplay, RowKind, SectionKind, SettingsInputs, SettingsTab,
};
use vuho_ui::settings_window::{window_hotkey_row, window_mic_row};
use vuho_ui::theme::Tone;

fn labels() -> HotkeyLabels {
    HotkeyLabels {
        caps_lock: "CapsLock".to_owned(),
        option_space: "⌥Space".to_owned(),
        control_option_space: "⌃⌥Space".to_owned(),
        command_shift_space: "⌘⇧Space".to_owned(),
        control_option_d: "⌃⌥D".to_owned(),
    }
}

fn manifest() -> Manifest {
    Manifest {
        default_model: "some-model".to_owned(),
        models: vec![ManifestModel {
            id: "some-model".to_owned(),
            min_macos: "15.0".to_owned(),
            backend: Backend::ParakeetTdt,
        }],
    }
}

fn text(t: &str) -> String {
    t.to_owned()
}

fn line(t: &str, tone: Tone) -> Part {
    Part::Line { text: text(t), tone }
}

fn button(label: &str, fill: Fill, action: Action) -> Part {
    Part::Button { label: text(label), fill, action }
}

#[test]
fn granted_non_accessibility_is_granted() {
    assert_eq!(
        permission_row_kind(Access::Granted, false, true),
        RowKind::Granted
    );
}

#[test]
fn granted_accessibility_with_working_hotkey_is_granted() {
    assert_eq!(
        permission_row_kind(Access::Granted, true, false),
        RowKind::Granted
    );
}

#[test]
fn granted_accessibility_with_failed_hotkey_needs_relaunch() {
    assert_eq!(
        permission_row_kind(Access::Granted, true, true),
        RowKind::GrantedNeedsRelaunch
    );
}

#[test]
fn hotkey_failed_only_matters_for_accessibility() {
    assert_eq!(
        permission_row_kind(Access::Granted, false, true),
        RowKind::Granted
    );
}

#[test]
fn promptable_is_promptable_regardless_of_accessibility_or_hotkey() {
    for is_accessibility in [false, true] {
        for hotkey_failed in [false, true] {
            assert_eq!(
                permission_row_kind(Access::Promptable, is_accessibility, hotkey_failed),
                RowKind::Promptable
            );
        }
    }
}

#[test]
fn denied_is_denied_regardless_of_accessibility_or_hotkey() {
    for is_accessibility in [false, true] {
        for hotkey_failed in [false, true] {
            assert_eq!(
                permission_row_kind(Access::Denied, is_accessibility, hotkey_failed),
                RowKind::Denied
            );
        }
    }
}

#[test]
fn no_persisted_device_is_system_default() {
    assert_eq!(mic_display(&None, &vec![]), MicDisplay::SystemDefault);
    assert_eq!(
        mic_display(&None, &vec!["Built-in Mic".to_owned()]),
        MicDisplay::SystemDefault
    );
}

#[test]
fn persisted_device_present_in_list_is_connected() {
    let devices = vec!["USB Mic".to_owned(), "Built-in Mic".to_owned()];
    assert_eq!(
        mic_display(&Some("Built-in Mic".to_owned()), &devices),
        MicDisplay::Connected("Built-in Mic".to_owned())
    );
}

#[test]
fn persisted_device_absent_from_list_is_missing() {
    let devices = vec!["USB Mic".to_owned()];
    assert_eq!(
        mic_display(&Some("Bluetooth Headset".to_owned()), &devices),
        MicDisplay::Missing("Bluetooth Headset".to_owned())
    );
}

#[test]
fn persisted_device_missing_from_an_empty_list_is_missing() {
    assert_eq!(
        mic_display(&Some("USB Mic".to_owned()), &vec![]),
        MicDisplay::Missing("USB Mic".to_owned())
    );
}

fn availability(status: ModelStatus, source: Option<ModelSource>) -> ModelAvailability {
    ModelAvailability {
        id: "some-model".to_owned(),
        display_name: "Some Model".to_owned(),
        status,
        source,
        total_bytes: 636_000_000,
        supported_on_this_os: true,
    }
}

#[test]
fn a_model_this_macos_is_too_old_for_offers_no_action_at_all() {
    let unsupported = ModelAvailability {
        supported_on_this_os: false,
        ..availability(ModelStatus::Missing { total_bytes: 1 }, None)
    };
    assert!(matches!(
        model_row_control(&unsupported, false, &manifest()),
        ModelRowControl::Unsupported(_)
    ));
}

#[test]
fn an_absent_model_offers_a_download() {
    assert_eq!(
        model_row_control(
            &availability(ModelStatus::Missing { total_bytes: 1 }, None),
            false,
            &manifest()
        ),
        ModelRowControl::Download
    );
}

#[test]
fn a_downloading_model_shows_its_progress() {
    assert_eq!(
        model_row_control(
            &availability(
                ModelStatus::Downloading {
                    received_bytes: 10,
                    total_bytes: 100
                },
                None
            ),
            false,
            &manifest()
        ),
        ModelRowControl::Downloading {
            received_bytes: 10,
            total_bytes: 100
        }
    );
}

#[test]
fn a_verifying_model_shows_that_it_is_verifying() {
    assert_eq!(
        model_row_control(
            &availability(ModelStatus::Verifying, None),
            false,
            &manifest()
        ),
        ModelRowControl::Verifying
    );
}

#[test]
fn a_failed_model_offers_a_retry_with_its_own_message() {
    assert_eq!(
        model_row_control(
            &availability(
                ModelStatus::Failed {
                    message: "connection reset".to_owned()
                },
                None
            ),
            false,
            &manifest()
        ),
        ModelRowControl::Failed("connection reset".into())
    );
}

#[test]
fn the_selected_model_is_never_deletable_from_its_own_row() {
    assert_eq!(
        model_row_control(
            &availability(ModelStatus::Ready, Some(ModelSource::UserData)),
            true,
            &manifest()
        ),
        ModelRowControl::Selected,
        "the selected model must not offer a Delete the provisioning loop would refuse"
    );
}

#[test]
fn an_unselected_downloaded_model_offers_delete() {
    assert_eq!(
        model_row_control(
            &availability(ModelStatus::Ready, Some(ModelSource::UserData)),
            false,
            &manifest()
        ),
        ModelRowControl::Delete
    );
}

#[test]
fn a_model_vuho_did_not_download_says_who_provisioned_it_instead() {
    for (source, label) in [
        (ModelSource::Bundle, "Bundled"),
        (ModelSource::DevTree, "Dev tree"),
        (ModelSource::EnvOverride, "Override"),
    ] {
        assert_eq!(
            model_row_control(
                &availability(ModelStatus::Ready, Some(source)),
                false,
                &manifest()
            ),
            ModelRowControl::Provisioned(label.into())
        );
    }
}

#[test]
fn a_ready_model_with_an_unresolved_source_does_not_claim_to_be_downloaded() {
    assert_eq!(
        model_row_control(&availability(ModelStatus::Ready, None), false, &manifest()),
        ModelRowControl::Provisioned("Source unknown".into())
    );
}

fn status_model(models: Vec<ModelAvailability>) -> StatusModel {
    StatusModel {
        model: models.first().map(|model| model.status.clone()),
        models,
        engine: EngineState::Loading,
        recording: false,
        hotkey: HotkeyState::Active(HotkeySetting::CapsLock),
        permissions_missing: Vec::new(),
        launch_blocked: false,
        settings_load_warning: None,
    }
}

#[test]
fn the_gate_path_shows_no_speech_model_card() {
    let mut status = status_model(Vec::new());
    status.launch_blocked = true;
    assert!(!shows_speech_model_section(&status));
}

#[test]
fn a_reported_model_list_shows_the_speech_model_card() {
    let status = status_model(vec![availability(
        ModelStatus::Ready,
        Some(ModelSource::UserData),
    )]);
    assert!(shows_speech_model_section(&status));
}

#[test]
fn only_a_ready_supported_model_is_selectable() {
    assert!(selectable(&availability(ModelStatus::Ready, None)));
    assert!(!selectable(&availability(
        ModelStatus::Missing { total_bytes: 1 },
        None
    )));
    assert!(!selectable(&ModelAvailability {
        supported_on_this_os: false,
        ..availability(ModelStatus::Ready, None)
    }));
}

#[test]
fn the_combobox_falls_back_to_the_bare_id_before_the_first_model_list_arrives() {
    assert_eq!(model_display_name(&vec![], "some-model"), "some-model");
    assert_eq!(
        model_display_name(&vec![availability(ModelStatus::Ready, None)], "some-model"),
        "Some Model"
    );
}

#[test]
fn hotkey_label_reads_the_carried_preset_either_way() {
    let labels = labels();
    assert_eq!(
        hotkey_label(HotkeyState::Active(HotkeySetting::CapsLock), &labels),
        labels.label(HotkeySetting::CapsLock)
    );
    assert_eq!(
        hotkey_label(HotkeyState::Failed(HotkeySetting::OptionSpace), &labels),
        labels.label(HotkeySetting::OptionSpace)
    );
}

#[test]
fn an_unsupported_model_names_the_version_it_needs() {
    assert_eq!(min_macos_label(&manifest(), "some-model"), "Needs macOS 15.0");
    assert_eq!(min_macos_label(&manifest(), "other"), "Unsupported on this Mac");
    assert_eq!(source_label(Some(ModelSource::UserData)), "Downloaded");
}

#[test]
fn every_row_control_is_made_of_its_own_parts() {
    let download = || Action::Provision(download_of(text("m")));
    assert_eq!(
        row_control(ModelRowControl::Download, "m"),
        vec![button("Download", Fill::Accent, download())]
    );
    assert_eq!(
        row_control(ModelRowControl::Failed(text("boom")), "m"),
        vec![
            line("boom", Tone::Failure),
            button("Retry", Fill::Accent, download()),
        ]
    );
    assert_eq!(
        row_control(ModelRowControl::Delete, "m"),
        vec![button(
            "Delete",
            Fill::Danger,
            Action::Provision(delete_of(text("m")))
        )]
    );
    assert_eq!(
        row_control(
            ModelRowControl::Downloading {
                received_bytes: 10_000_000,
                total_bytes: 100_000_000
            },
            "m"
        ),
        vec![
            Part::Progress {
                received_bytes: 10_000_000,
                total_bytes: 100_000_000
            },
            line("10 MB of 100 MB", Tone::Secondary),
            Part::Pill(text("In progress…")),
        ]
    );
    assert_eq!(
        row_control(ModelRowControl::Verifying, "m"),
        vec![
            line("Verifying…", Tone::Secondary),
            Part::Pill(text("In progress…")),
        ]
    );
    assert_eq!(
        row_control(ModelRowControl::Selected, "m"),
        vec![Part::Pill(text("Selected"))]
    );
    assert_eq!(
        row_control(ModelRowControl::Unsupported(text("Needs macOS 15.0")), "m"),
        vec![Part::Pill(text("Needs macOS 15.0"))]
    );
    assert_eq!(
        row_control(ModelRowControl::Provisioned(text("Bundled")), "m"),
        vec![Part::Pill(text("Bundled"))]
    );
    assert_eq!(download_of(text("m")), ProvisionCommand::Download(text("m")));
    assert_eq!(delete_of(text("m")), ProvisionCommand::Delete(text("m")));
}

#[test]
fn a_model_row_shows_name_size_and_control() {
    assert_eq!(
        model_list_row(
            &availability(ModelStatus::Ready, Some(ModelSource::UserData)),
            true,
            &manifest()
        ),
        vec![
            Part::Name(text("Some Model")),
            line("636 MB", Tone::Tertiary),
            Part::Pill(text("Selected")),
        ]
    );
}

#[test]
fn only_models_that_would_load_can_be_chosen() {
    let missing = ModelAvailability {
        id: text("other"),
        display_name: text("Other"),
        ..availability(ModelStatus::Missing { total_bytes: 1 }, None)
    };
    let models = vec![availability(ModelStatus::Ready, None), missing];
    let options = vec![
        Part::Choice {
            label: text("Some Model"),
            tone: Tone::Primary,
            action: Action::ChooseModel(text("some-model")),
        },
        Part::DisabledChoice(text("Other")),
    ];
    assert_eq!(model_options(&models), options);
    let mut open = vec![Part::Dropdown {
        label: text("Some Model"),
        tone: Tone::Primary,
        action: Action::ToggleModels,
    }];
    assert_eq!(model_row(&models, "some-model", false, false), open);
    open.extend(options);
    assert_eq!(model_row(&models, "some-model", false, true), open);
    // Locked while a session is live.
    assert_eq!(
        model_row(&models, "some-model", true, true),
        vec![Part::Pill(text("Some Model"))]
    );
}

#[test]
fn a_failed_engine_can_be_retried_without_a_download() {
    assert_eq!(engine_state(&EngineState::Ready, "m"), vec![]);
    assert_eq!(
        engine_state(&EngineState::Loading, "m"),
        vec![line("Warming up the speech engine…", Tone::Secondary)]
    );
    assert_eq!(
        engine_state(&EngineState::Failed(text("boom")), "m"),
        vec![
            line("boom", Tone::Failure),
            button(
                "Retry",
                Fill::Accent,
                Action::Provision(ProvisionCommand::SelectModel(text("m")))
            ),
        ]
    );
}

fn mic_choice(name: &str, tone: Tone) -> Part {
    Part::Choice {
        label: text(name),
        tone,
        action: Action::ChooseMicrophone(Some(text(name))),
    }
}

fn default_choice() -> Part {
    Part::Choice {
        label: text("System Default"),
        tone: Tone::Primary,
        action: Action::ChooseMicrophone(None),
    }
}

#[test]
fn a_missing_microphone_is_flagged_and_can_be_kept() {
    let devices = vec![text("USB Mic")];
    assert_eq!(
        mic_row(&Some(text("Headset")), &devices, true),
        vec![
            Part::Label(text("Microphone")),
            Part::Dropdown {
                label: text("Headset"),
                tone: Tone::Warning,
                action: Action::ToggleMicrophones,
            },
            line(
                "Not connected — using System Default until it returns.",
                Tone::Warning
            ),
            default_choice(),
            mic_choice("USB Mic", Tone::Primary),
            mic_choice("Headset", Tone::Disabled),
        ]
    );
    assert_eq!(
        mic_row(&None, &devices, false),
        vec![
            Part::Label(text("Microphone")),
            Part::Dropdown {
                label: text("System Default"),
                tone: Tone::Primary,
                action: Action::ToggleMicrophones,
            },
        ]
    );
    assert_eq!(
        mic_label(&MicDisplay::Connected(text("USB Mic"))),
        (text("USB Mic"), Tone::Primary)
    );
}

#[test]
fn an_inactive_hotkey_says_what_to_do() {
    let labels = labels();
    let closed = hotkey_row(HotkeyState::Active(HotkeySetting::CapsLock), &labels, false);
    assert_eq!(closed.len(), 2);
    let open = hotkey_row(HotkeyState::Failed(HotkeySetting::OptionSpace), &labels, true);
    assert_eq!(open.len(), 9);
    assert_eq!(
        open[2],
        Part::Choice {
            label: text("CapsLock"),
            tone: Tone::Primary,
            action: Action::ChooseHotkey(HotkeySetting::CapsLock),
        }
    );
    assert_eq!(
        open[7],
        line(
            "Hotkey inactive — Vuho can't listen for ⌥Space. Re-grant Accessibility, then \
             relaunch.",
            Tone::Failure
        )
    );
    assert_eq!(open[8], button("Relaunch Vuho", Fill::Confirm, Action::Relaunch));
}

#[test]
fn permission_rows_offer_what_helps() {
    assert_eq!(
        permission_row(Permission::Accessibility, Access::Promptable, false),
        vec![
            Part::Name(text("Accessibility")),
            line(
                "Lets Vuho listen for the global CapsLock dictation hotkey.",
                Tone::Tertiary
            ),
            line("Vuho must be relaunched after granting.", Tone::Tertiary),
            button(
                "Allow Accessibility",
                Fill::Accent,
                Action::Request(Permission::Accessibility)
            ),
        ]
    );
    assert_eq!(
        permission_row(Permission::Accessibility, Access::Granted, true)[2..],
        [
            line("Granted — relaunch required", Tone::Warning),
            button("Relaunch Vuho", Fill::Confirm, Action::Relaunch),
        ]
    );
    assert_eq!(
        permission_row(Permission::Microphone, Access::Denied, true)[2..],
        [
            line("Access denied", Tone::Failure),
            button(
                "Open System Settings",
                Fill::Accent,
                Action::OpenSystemSettings(Permission::Microphone)
            ),
        ]
    );
    assert_eq!(
        permission_row(Permission::Microphone, Access::Granted, true)[2..],
        [line("✓ Granted", Tone::Success)]
    );
}

#[test]
fn the_permissions_section_goes_by_the_missing_list_alone() {
    let active = HotkeyState::Active(HotkeySetting::CapsLock);
    assert_eq!(
        permissions_section(&vec![], false, active),
        vec![
            Part::Label(text("Permissions")),
            line("✓", Tone::Success),
            line("All permissions granted", Tone::Secondary),
        ]
    );
    let missing = vec![(Permission::Microphone, Access::Denied)];
    assert_eq!(
        permission_access(&missing, Permission::Microphone),
        Access::Denied
    );
    assert_eq!(
        permission_access(&missing, Permission::Accessibility),
        Access::Granted
    );
    let rows = permissions_section(&missing, true, active);
    assert_eq!(rows.len(), 1 + 3 + 3 + 4);
    assert_eq!(rows[7], Part::Name(text("Microphone")));
    let blocked = permissions_section(&vec![], true, active);
    assert_eq!(blocked.len(), 1 + 9 + 2);
    assert_eq!(
        blocked[10..],
        [
            line(
                "All permissions granted — relaunch Vuho to finish setup.",
                Tone::Primary
            ),
            button("Relaunch Vuho", Fill::Confirm, Action::Relaunch),
        ]
    );
}

#[test]
fn at_most_one_list_is_open() {
    let mut tab = SettingsTab::new(vec![]);
    assert!(tab.toggle_microphones());
    tab.toggle_hotkeys();
    assert!(!tab.mic_open && tab.hotkey_open && !tab.model_open);
    tab.toggle_models();
    assert!(!tab.mic_open && !tab.hotkey_open && tab.model_open);
    assert!(tab.toggle_microphones());
    assert!(tab.mic_open && !tab.hotkey_open && !tab.model_open);
    assert!(!tab.toggle_microphones());
    assert!(!tab.mic_open);
    tab.toggle_hotkeys();
    tab.close_dropdowns();
    assert_eq!(tab, SettingsTab::new(vec![]));
}

#[test]
fn choosing_closes_the_list() {
    let mut tab = SettingsTab::new(vec![]);
    tab.toggle_models();
    assert_eq!(
        tab.select_model(text("m")),
        ProvisionCommand::SelectModel(text("m"))
    );
    assert!(!tab.model_open);
    tab.toggle_microphones();
    tab.select_microphone();
    assert!(!tab.mic_open);
    tab.refresh_devices(vec![text("USB Mic")]);
    assert_eq!(tab.devices, vec![text("USB Mic")]);
    assert_eq!(devices_or_none(Ok(vec![text("a")])), vec![text("a")]);
    assert_eq!(devices_or_none(Err(text("boom"))), Vec::<String>::new());
}

#[test]
fn choosing_a_hotkey_rebinds_a_live_listener() {
    let mut tab = SettingsTab::new(vec![]);
    tab.toggle_hotkeys();
    assert_eq!(
        tab.select_hotkey(HotkeySetting::CapsLock, None::<fn(HotkeyConfig) -> bool>),
        HotkeyChange { state: None, prompt_accessibility: false }
    );
    assert!(!tab.hotkey_open);
    assert_eq!(
        tab.select_hotkey(
            HotkeySetting::CapsLock,
            Some(|config: HotkeyConfig| config == HotkeyConfig::CapsLock)
        ),
        HotkeyChange {
            state: Some(HotkeyState::Active(HotkeySetting::CapsLock)),
            prompt_accessibility: false,
        }
    );
    assert_eq!(
        tab.select_hotkey(
            HotkeySetting::OptionSpace,
            Some(|config: HotkeyConfig| config == HotkeyConfig::CapsLock)
        ),
        HotkeyChange {
            state: Some(HotkeyState::Failed(HotkeySetting::OptionSpace)),
            prompt_accessibility: true,
        }
    );
}

fn inputs() -> SettingsInputs {
    SettingsInputs {
        selected: text("some-model"),
        microphone: None,
        manifest: manifest(),
        labels: labels(),
        mapped_languages: vec![text("pl"), text("en")],
        prompted_languages: vec![],
    }
}

#[test]
fn the_tab_shows_its_sections_in_order() {
    let tab = SettingsTab::new(vec![]);
    let kinds = |status: &StatusModel| -> Vec<SectionKind> {
        tab.sections(status, &inputs()).iter().map(|s| s.kind).collect()
    };
    let mut status = status_model(vec![]);
    assert_eq!(
        kinds(&status),
        vec![SectionKind::Permissions, SectionKind::Microphone, SectionKind::Hotkey]
    );
    status = status_model(vec![availability(ModelStatus::Ready, None)]);
    status.settings_load_warning = Some(text("bad file"));
    assert_eq!(
        kinds(&status),
        vec![
            SectionKind::Warning,
            SectionKind::SpeechModel,
            SectionKind::Permissions,
            SectionKind::Microphone,
            SectionKind::Hotkey,
        ]
    );
    let sections = tab.sections(&status, &inputs());
    assert_eq!(
        sections[0].parts,
        vec![
            line(
                "Settings could not be read — defaults are in use.",
                Tone::Warning
            ),
            line("bad file", Tone::Secondary),
        ]
    );
    assert_eq!(
        sections[1].parts,
        vec![
            Part::Label(text("Speech Model")),
            Part::Dropdown {
                label: text("Some Model"),
                tone: Tone::Primary,
                action: Action::ToggleModels,
            },
            line("Languages: en, pl", Tone::Tertiary),
            Part::Name(text("Some Model")),
            line("636 MB", Tone::Tertiary),
            Part::Pill(text("Selected")),
            line("Warming up the speech engine…", Tone::Secondary),
        ]
    );
}

#[test]
fn the_settings_window_shows_the_microphone_and_the_hotkey() {
    let devices = vec![text("USB Mic")];
    assert_eq!(
        window_mic_row(&Some(text("Headset")), &devices, true),
        vec![
            Part::Label(text("Microphone")),
            Part::Dropdown {
                label: text("Headset"),
                tone: Tone::Primary,
                action: Action::ToggleMicrophones,
            },
            default_choice(),
            mic_choice("USB Mic", Tone::Primary),
        ]
    );
    assert_eq!(
        window_mic_row(&None, &devices, false)[1],
        Part::Dropdown {
            label: text("System Default"),
            tone: Tone::Primary,
            action: Action::ToggleMicrophones,
        }
    );
    let hotkeys = window_hotkey_row(HotkeySetting::ControlOptionD, &labels(), true);
    assert_eq!(hotkeys.len(), 7);
    assert_eq!(
        hotkeys[1],
        Part::Dropdown {
            label: text("⌃⌥D"),
            tone: Tone::Primary,
            action: Action::ToggleHotkeys,
        }
    );
}

#[test]
fn rows_say_of_a_permission_what_the_system_said() {
    for accessibility_trusted in [false, true] {
        for input_monitoring in [
            InputMonitoringAccess::Granted,
            InputMonitoringAccess::Unknown,
            InputMonitoringAccess::Denied,
        ] {
            for microphone in [
                MicAuthStatus::Authorized,
                MicAuthStatus::NotDetermined,
                MicAuthStatus::Restricted,
            ] {
                let live = LiveAccess { accessibility_trusted, input_monitoring, microphone };
                let missing = missing_permissions(&live);
                for permission in Permission::ALL {
                    assert_eq!(
                        permission_access(&missing, permission),
                        permission.access(&live)
                    );
                }
            }
        }
    }
}

#[test]
fn what_a_row_offers_is_never_refused() {
    let other = ModelAvailability {
        id: text("other"),
        ..availability(ModelStatus::Ready, Some(ModelSource::UserData))
    };
    let phases: Vec<Phase<u32>> = vec![
        Phase::Ready(1),
        Phase::EngineFailed(text("boom")),
        Phase::Downloading { id: text("other"), status: ModelStatus::Verifying },
        Phase::Downloading { id: text("third"), status: ModelStatus::Verifying },
    ];
    for phase in phases {
        let rows = phase_rows(&phase, &vec![other.clone()]);
        let offered = model_row_control(&rows[0], false, &manifest()) == ModelRowControl::Delete;
        let (_, deletion) =
            on_delete_command(phase, "other", &None, &manifest(), |_| other.clone(), |_| Ok(()));
        assert_eq!(offered, deletion == Deletion::Deleted);
    }
    let failed = availability(ModelStatus::Failed { message: text("boom") }, None);
    assert_eq!(
        model_row_control(&failed, true, &manifest()),
        ModelRowControl::Failed(text("boom"))
    );
    let (_, outcome) = on_download_command(
        Phase::Ready(1),
        "some-model",
        &manifest(),
        &vec![],
        |_| failed,
        |_| 7,
    );
    assert!(matches!(outcome, ProvisionOutcome::DownloadStarted(7)));
}

#[test]
fn every_model_of_the_list_has_a_row() {
    let models: Vec<ModelAvailability> = ["a", "b", "c"]
        .iter()
        .map(|id| ModelAvailability {
            id: text(id),
            display_name: format!("Model {id}"),
            ..availability(ModelStatus::Missing { total_bytes: 1 }, None)
        })
        .collect();
    let parts = model_list(&models, "b", &manifest());
    for model in &models {
        assert!(parts.contains(&Part::Name(model.display_name.clone())));
        assert!(parts.contains(&button(
            "Download",
            Fill::Accent,
            Action::Provision(ProvisionCommand::Download(model.id.clone()))
        )));
    }
}
