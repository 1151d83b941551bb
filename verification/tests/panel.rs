use vuho_ui::panel::{
    tab_strip, PanelBody, PanelEffect, PanelState, Presentation, Tab, TabButton,
};
use vuho_ui::settings_window::SettingsWindow;
use vuho_ui::theme::Tone;

fn full_effects(tab: Tab) -> Vec<PanelEffect> {
    let mut effects = vec![
        PanelEffect::Frame(Presentation::Full),
        PanelEffect::ClickThrough(false),
        PanelEffect::MakeKeyAndOrderFront,
    ];
    if tab == Tab::Settings {
        effects.push(PanelEffect::RefreshDevices);
    }
    effects.push(PanelEffect::RefreshPermissions);
    effects.push(PanelEffect::StartPermissionsPoll);
    effects
}

fn close_effects() -> Vec<PanelEffect> {
    vec![
        PanelEffect::OrderOut,
        PanelEffect::StopPermissionsPoll,
        PanelEffect::CloseDropdowns,
        PanelEffect::Frame(Presentation::Hud),
        PanelEffect::ClickThrough(true),
    ]
}

#[test]
fn a_tray_click_opens_and_a_second_one_closes() {
    let mut panel = PanelState::new();
    assert!(!panel.is_shown());
    assert_eq!(panel.open_from_tray(false), full_effects(Tab::Overlay));
    assert!(panel.is_shown());
    assert_eq!(panel.select_tab(Tab::Settings), vec![PanelEffect::RefreshDevices]);
    assert_eq!(panel.open_from_tray(false), close_effects());
    assert!(!panel.is_shown());
    assert_eq!(panel.presentation, Presentation::Hud);
    assert!(!panel.polling);
    // The tab stays for the next time.
    assert_eq!(panel.open_from_tray(false), full_effects(Tab::Settings));
    assert_eq!(panel.active_tab, Tab::Settings);
}

#[test]
fn a_tray_click_during_a_session_shows_the_session() {
    let mut panel = PanelState::new();
    panel.show_full(Tab::Settings);
    panel.close();
    assert_eq!(panel.open_from_tray(true), full_effects(Tab::Overlay));
    assert_eq!(panel.active_tab, Tab::Overlay);
}

#[test]
fn a_session_comes_up_as_the_overlay_and_goes_away_again() {
    let mut panel = PanelState::new();
    let before = panel;
    assert_eq!(
        panel.on_session_started(),
        vec![
            PanelEffect::Frame(Presentation::Hud),
            PanelEffect::ClickThrough(true),
            PanelEffect::OrderFront,
        ]
    );
    assert!(panel.is_shown());
    assert_eq!(panel.on_session_started(), vec![]);
    assert_eq!(panel.hide_if_hud(), vec![PanelEffect::OrderOut]);
    assert_eq!(panel, before);
}

#[test]
fn a_session_turns_an_open_window_and_never_closes_it() {
    let mut panel = PanelState::new();
    panel.show_full(Tab::Settings);
    assert_eq!(panel.on_session_started(), vec![]);
    assert_eq!(panel.active_tab, Tab::Overlay);
    assert_eq!(panel.hide_if_hud(), vec![]);
    assert!(panel.is_shown());
    assert_eq!(panel.presentation, Presentation::Full);
}

#[test]
fn the_body_follows_the_presentation_the_tab_and_the_session() {
    let mut panel = PanelState::new();
    assert_eq!(panel.body(true), PanelBody::Hud);
    panel.show_full(Tab::Overlay);
    assert_eq!(panel.body(true), PanelBody::Session);
    assert_eq!(panel.body(false), PanelBody::Idle);
    assert_eq!(panel.select_tab(Tab::Settings), vec![PanelEffect::RefreshDevices]);
    assert_eq!(panel.body(true), PanelBody::Settings);
    assert_eq!(panel.select_tab(Tab::Overlay), vec![]);
}

#[test]
fn the_tab_strip_marks_the_open_tab() {
    assert_eq!(
        tab_strip(Tab::Settings),
        vec![
            TabButton {
                tab: Tab::Overlay,
                icon: "icons/waveform.svg",
                label: "Overlay",
                id: "panel-tab-overlay",
                selected: false,
                tone: Tone::Tertiary,
            },
            TabButton {
                tab: Tab::Settings,
                icon: "icons/gear.svg",
                label: "Settings",
                id: "panel-tab-settings",
                selected: true,
                tone: Tone::Primary,
            },
        ]
    );
    assert!(tab_strip(Tab::Overlay)[0].selected);
}

#[test]
fn there_is_at_most_one_settings_window() {
    let mut window: SettingsWindow<u32> = SettingsWindow::new();
    assert!(!window.open(|_| unreachable!(), || None));
    assert_eq!(window.handle, None);
    assert!(window.open(|_| unreachable!(), || Some(1)));
    assert_eq!(window.handle, Some(1));
    // Still there: it comes forward, and no other one is opened.
    assert!(window.open(|h| *h == 1, || unreachable!()));
    assert_eq!(window.handle, Some(1));
    // Gone without a word: another one is opened.
    assert!(window.open(|_| false, || Some(2)));
    assert_eq!(window.handle, Some(2));
    // Gone, and none can be opened.
    assert!(!window.open(|_| false, || None));
    assert_eq!(window.handle, Some(2));
    window.closed();
    assert_eq!(window.handle, None);
}
