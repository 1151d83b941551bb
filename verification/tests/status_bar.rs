use vuho_ui::app_status::CompositeStatus;
use vuho_ui::status_bar::{
    click_action, pick_symbol, sync, Click, ClickAction, TrayIcon, TrayUpdate,
};

fn all_composite_statuses() -> [CompositeStatus; 9] {
    [
        CompositeStatus::PermissionsMissing,
        CompositeStatus::RelaunchRequired,
        CompositeStatus::ModelMissing,
        CompositeStatus::Downloading(43),
        CompositeStatus::Verifying,
        CompositeStatus::EngineFailed,
        CompositeStatus::EngineLoading,
        CompositeStatus::Recording,
        CompositeStatus::Ready,
    ]
}

#[test]
fn tray_icon_mapping_is_total_and_matches_the_documented_priority() {
    for status in all_composite_statuses() {
        let icon = TrayIcon::from_composite(&status);
        let expected = match status {
            CompositeStatus::Ready => TrayIcon::Idle,
            CompositeStatus::Recording => TrayIcon::Recording,
            _ => TrayIcon::Maintenance,
        };
        assert_eq!(icon, expected, "mismatch for {status:?}");
    }
}

#[test]
fn every_tray_icon_has_at_least_one_symbol_name() {
    for icon in [TrayIcon::Idle, TrayIcon::Recording, TrayIcon::Maintenance] {
        assert!(
            !icon.symbol_names().is_empty(),
            "{icon:?} has no symbol names to try"
        );
    }
}

#[test]
fn recording_and_maintenance_fallback_chains_end_in_a_known_good_symbol() {
    assert_eq!(TrayIcon::Recording.symbol_names().last(), Some(&"waveform"));
    assert_eq!(
        TrayIcon::Maintenance.symbol_names().last(),
        Some(&"exclamationmark.triangle")
    );
}

#[test]
fn the_first_available_symbol_is_picked() {
    assert_eq!(pick_symbol(&vec![true, true]), Some(0));
    assert_eq!(pick_symbol(&vec![false, false, true]), Some(2));
    assert_eq!(pick_symbol(&vec![false, false]), None);
    assert_eq!(pick_symbol(&vec![]), None);
}

#[test]
fn the_icon_is_put_up_only_where_it_is_not_up_already() {
    assert_eq!(
        sync(&CompositeStatus::Ready, None),
        TrayUpdate {
            title: "Start Listening".to_owned(),
            enabled: true,
            icon: Some(TrayIcon::Idle),
        }
    );
    assert_eq!(
        sync(&CompositeStatus::Verifying, Some(TrayIcon::Maintenance)),
        TrayUpdate {
            title: "Verifying model…".to_owned(),
            enabled: false,
            icon: None,
        }
    );
    assert_eq!(
        sync(&CompositeStatus::Recording, Some(TrayIcon::Maintenance)).icon,
        Some(TrayIcon::Recording)
    );
}

#[test]
fn a_menu_gesture_is_a_right_click_or_a_control_click() {
    assert_eq!(click_action(Some(Click::Right), false), ClickAction::PopMenu);
    assert_eq!(click_action(Some(Click::Left), true), ClickAction::PopMenu);
    assert_eq!(click_action(Some(Click::Left), false), ClickAction::OpenPanel);
    assert_eq!(click_action(Some(Click::Other), true), ClickAction::OpenPanel);
    assert_eq!(click_action(None, true), ClickAction::OpenPanel);
}
