//! The panel: one window with two presentations, and what has to be done to the
//! window when it changes.

use vstd::prelude::*;

use crate::assets::{GEAR_ICON, WAVEFORM_ICON};
use crate::theme::Tone;

verus! {

/// The shape of the panel.
#[derive(Debug, Clone, Copy, PartialEq, Eq, Structural)]
pub enum Presentation {
    /// The overlay at the bottom of the screen, which clicks go through.
    Hud,
    /// The window with tabs in the middle of the screen, which takes the focus.
    Full,
}

/// The tabs of the window.
#[derive(Debug, Clone, Copy, PartialEq, Eq, Structural)]
pub enum Tab {
    Overlay,
    Settings,
}

/// How often the permissions are looked at while the window is open, in
/// milliseconds.
pub const PERMISSIONS_POLL_INTERVAL_MS: u64 = 500;

/// Something to do to the window, or to what it shows.
#[derive(Debug, Clone, Copy, PartialEq, Eq, Structural)]
pub enum PanelEffect {
    /// Move the window to where this presentation belongs.
    Frame(Presentation),
    /// Let clicks through, or stop them.
    ClickThrough(bool),
    /// Bring the window to the front and give it the focus.
    MakeKeyAndOrderFront,
    /// Bring the window to the front and leave the focus where it is.
    OrderFront,
    /// Take the window off the screen.
    OrderOut,
    /// Look which microphones there are.
    RefreshDevices,
    /// Look which permissions are missing.
    RefreshPermissions,
    /// Go on looking which permissions are missing.
    StartPermissionsPoll,
    /// Stop looking which permissions are missing.
    StopPermissionsPoll,
    /// Close the lists that are open on the settings tab.
    CloseDropdowns,
}

/// The state of the panel.
#[derive(Debug, Clone, Copy, PartialEq, Eq, Structural)]
pub struct PanelState {
    pub presentation: Presentation,
    pub active_tab: Tab,
    /// Whether the window is on screen.
    pub shown: bool,
    /// Whether the permissions are being looked at.
    pub polling: bool,
}

/// What has to be done to the window when it takes on a presentation.
pub open spec fn presentation_effects(presentation: Presentation) -> Seq<PanelEffect> {
    match presentation {
        Presentation::Hud => seq![
            PanelEffect::Frame(Presentation::Hud),
            PanelEffect::ClickThrough(true),
        ],
        Presentation::Full => seq![
            PanelEffect::Frame(Presentation::Full),
            PanelEffect::ClickThrough(false),
            PanelEffect::MakeKeyAndOrderFront,
        ],
    }
}

/// What has to be done to the window when it takes on a presentation.
pub fn apply_presentation(presentation: Presentation) -> (r: Vec<PanelEffect>)
    ensures
        r@ == presentation_effects(presentation),
{
    match presentation {
        Presentation::Hud => vec![
            PanelEffect::Frame(Presentation::Hud),
            PanelEffect::ClickThrough(true),
        ],
        Presentation::Full => vec![
            PanelEffect::Frame(Presentation::Full),
            PanelEffect::ClickThrough(false),
            PanelEffect::MakeKeyAndOrderFront,
        ],
    }
}

/// What has to be done when the window opens on a tab.
pub open spec fn show_effects(tab: Tab) -> Seq<PanelEffect> {
    presentation_effects(Presentation::Full) + (if tab == Tab::Settings {
        seq![PanelEffect::RefreshDevices]
    } else {
        Seq::empty()
    }) + seq![PanelEffect::RefreshPermissions, PanelEffect::StartPermissionsPoll]
}

/// What has to be done when the window closes.
pub open spec fn hide_effects() -> Seq<PanelEffect> {
    seq![
        PanelEffect::OrderOut,
        PanelEffect::StopPermissionsPoll,
        PanelEffect::CloseDropdowns,
    ] + presentation_effects(Presentation::Hud)
}

/// The panel once the window is open on a tab.
pub open spec fn opened_on(tab: Tab) -> PanelState {
    PanelState { presentation: Presentation::Full, active_tab: tab, shown: true, polling: true }
}

/// The panel once it is closed: out of sight, and ready to come up as the
/// overlay.
pub open spec fn closed_on(tab: Tab) -> PanelState {
    PanelState { presentation: Presentation::Hud, active_tab: tab, shown: false, polling: false }
}

/// The panel after a click on the menu-bar item.
pub open spec fn after_tray_click(panel: PanelState, has_session_content: bool) -> PanelState {
    if panel.shown && panel.presentation == Presentation::Full {
        closed_on(panel.active_tab)
    } else if has_session_content {
        opened_on(Tab::Overlay)
    } else {
        opened_on(panel.active_tab)
    }
}

/// What has to be done on a click on the menu-bar item.
pub open spec fn tray_click_effects(panel: PanelState, has_session_content: bool) -> Seq<
    PanelEffect,
> {
    if panel.shown && panel.presentation == Presentation::Full {
        hide_effects()
    } else if has_session_content {
        show_effects(Tab::Overlay)
    } else {
        show_effects(panel.active_tab)
    }
}

/// The panel once a session has something to show.
pub open spec fn after_session_start(panel: PanelState) -> PanelState {
    if !panel.shown {
        PanelState { presentation: Presentation::Hud, shown: true, ..panel }
    } else if panel.presentation == Presentation::Full {
        PanelState { active_tab: Tab::Overlay, ..panel }
    } else {
        panel
    }
}

/// What has to be done once a session has something to show.
pub open spec fn session_start_effects(panel: PanelState) -> Seq<PanelEffect> {
    if !panel.shown {
        presentation_effects(Presentation::Hud).push(PanelEffect::OrderFront)
    } else {
        Seq::empty()
    }
}

/// The panel once a session's outcome has been shown long enough.
pub open spec fn after_session_end(panel: PanelState) -> PanelState {
    if panel.presentation == Presentation::Hud {
        PanelState { shown: false, ..panel }
    } else {
        panel
    }
}

/// What has to be done once a session's outcome has been shown long enough.
pub open spec fn session_end_effects(panel: PanelState) -> Seq<PanelEffect> {
    if panel.presentation == Presentation::Hud {
        seq![PanelEffect::OrderOut]
    } else {
        Seq::empty()
    }
}

impl PanelState {
    /// The window is open exactly while the permissions are being looked at, and
    /// an open window is on screen.
    pub open spec fn wf(&self) -> bool {
        &&& self.polling <==> self.presentation == Presentation::Full
        &&& self.presentation == Presentation::Full ==> self.shown
    }

    /// The panel at launch: out of sight.
    pub fn new() -> (r: Self)
        ensures
            r.wf(),
            r == closed_on(Tab::Overlay),
    {
        PanelState {
            presentation: Presentation::Hud,
            active_tab: Tab::Overlay,
            shown: false,
            polling: false,
        }
    }

    /// Open the window on a tab and bring it to the front.
    pub fn show_full(&mut self, tab: Tab) -> (r: Vec<PanelEffect>)
        ensures
            final(self).wf(),
            *final(self) == opened_on(tab),
            r@ == show_effects(tab),
    {
        self.presentation = Presentation::Full;
        self.active_tab = tab;
        self.shown = true;
        self.polling = true;
        let mut effects = apply_presentation(Presentation::Full);
        if tab == Tab::Settings {
            effects.push(PanelEffect::RefreshDevices);
        }
        effects.push(PanelEffect::RefreshPermissions);
        effects.push(PanelEffect::StartPermissionsPoll);
        effects
    }

    /// A click on the menu-bar item: close the window if it is open; otherwise
    /// open it, on the overlay tab while there is something of a session to see,
    /// and on the tab that was open last if not.
    pub fn open_from_tray(&mut self, has_session_content: bool) -> (r: Vec<PanelEffect>)
        requires
            old(self).wf(),
        ensures
            final(self).wf(),
            *final(self) == after_tray_click(*old(self), has_session_content),
            r@ == tray_click_effects(*old(self), has_session_content),
    {
        if self.shown && self.presentation == Presentation::Full {
            self.close()
        } else if has_session_content {
            self.show_full(Tab::Overlay)
        } else {
            let tab = self.active_tab;
            self.show_full(tab)
        }
    }

    /// A session has something to show: bring up the overlay if nothing is on
    /// screen, and turn an open window to its overlay tab, without moving it or
    /// giving it the focus.
    pub fn on_session_started(&mut self) -> (r: Vec<PanelEffect>)
        requires
            old(self).wf(),
        ensures
            final(self).wf(),
            *final(self) == after_session_start(*old(self)),
            r@ == session_start_effects(*old(self)),
    {
        if !self.shown {
            self.presentation = Presentation::Hud;
            self.shown = true;
            let mut effects = apply_presentation(Presentation::Hud);
            effects.push(PanelEffect::OrderFront);
            effects
        } else {
            if self.presentation == Presentation::Full {
                self.active_tab = Tab::Overlay;
            }
            Vec::new()
        }
    }

    /// Whether the panel is on screen.
    pub fn is_shown(&self) -> (r: bool)
        ensures
            r == self.shown,
    {
        self.shown
    }

    /// The end of a session takes the overlay off the screen; a window that the
    /// user opened stays.
    pub fn hide_if_hud(&mut self) -> (r: Vec<PanelEffect>)
        requires
            old(self).wf(),
        ensures
            final(self).wf(),
            *final(self) == after_session_end(*old(self)),
            r@ == session_end_effects(*old(self)),
    {
        if self.presentation != Presentation::Hud {
            return Vec::new();
        }
        self.shown = false;
        vec![PanelEffect::OrderOut]
    }

    /// Close the panel, whatever it shows. It is made ready to come up as the
    /// overlay while it is out of sight; the tab stays for the next time.
    pub fn close(&mut self) -> (r: Vec<PanelEffect>)
        ensures
            final(self).wf(),
            *final(self) == closed_on(old(self).active_tab),
            r@ == hide_effects(),
    {
        self.shown = false;
        self.polling = false;
        self.presentation = Presentation::Hud;
        let mut effects = vec![
            PanelEffect::OrderOut,
            PanelEffect::StopPermissionsPoll,
            PanelEffect::CloseDropdowns,
        ];
        let mut hud = apply_presentation(Presentation::Hud);
        effects.append(&mut hud);
        effects
    }

    /// A click on a tab, or on a button that leads to it. The list of microphones
    /// is never shown stale.
    pub fn select_tab(&mut self, tab: Tab) -> (r: Vec<PanelEffect>)
        ensures
            *final(self) == (PanelState { active_tab: tab, ..*old(self) }),
            (*final(self), r@) == after_tab_click(*old(self), tab),
            old(self).wf() ==> final(self).wf(),
            r@ == if tab == Tab::Settings {
                seq![PanelEffect::RefreshDevices]
            } else {
                Seq::empty()
            },
    {
        self.active_tab = tab;
        if tab == Tab::Settings {
            vec![PanelEffect::RefreshDevices]
        } else {
            Vec::new()
        }
    }

    /// What the panel is filled with.
    pub fn body(&self, has_session_content: bool) -> (r: PanelBody)
        ensures
            r == body_of(*self, has_session_content),
    {
        match self.presentation {
            Presentation::Hud => PanelBody::Hud,
            Presentation::Full => match self.active_tab {
                Tab::Settings => PanelBody::Settings,
                Tab::Overlay => if has_session_content {
                    PanelBody::Session
                } else {
                    PanelBody::Idle
                },
            },
        }
    }
}

/// What the panel is filled with.
#[derive(Debug, Clone, Copy, PartialEq, Eq, Structural)]
pub enum PanelBody {
    /// The overlay, in its own frame.
    Hud,
    /// The overlay, on its tab.
    Session,
    /// The application's status, on the overlay tab.
    Idle,
    /// The settings tab, which scrolls.
    Settings,
}

/// What the panel is filled with.
pub open spec fn body_of(panel: PanelState, has_session_content: bool) -> PanelBody {
    if panel.presentation == Presentation::Hud {
        PanelBody::Hud
    } else if panel.active_tab == Tab::Settings {
        PanelBody::Settings
    } else if has_session_content {
        PanelBody::Session
    } else {
        PanelBody::Idle
    }
}

/// A tab's button.
#[derive(Debug, PartialEq, Eq)]
pub struct TabButton {
    pub tab: Tab,
    pub icon: &'static str,
    pub label: &'static str,
    pub id: &'static str,
    pub selected: bool,
    pub tone: Tone,
}

/// Whether `button` is the button of `tab` while `active` is the open tab.
pub open spec fn is_tab_button(button: TabButton, tab: Tab, active: Tab) -> bool {
    &&& button.tab == tab
    &&& button.selected == (tab == active)
    &&& button.tone == if tab == active {
        Tone::Primary
    } else {
        Tone::Tertiary
    }
    &&& match tab {
        Tab::Overlay => button.icon@ == "icons/waveform.svg"@ && button.label@ == "Overlay"@
            && button.id@ == "panel-tab-overlay"@,
        Tab::Settings => button.icon@ == "icons/gear.svg"@ && button.label@ == "Settings"@
            && button.id@ == "panel-tab-settings"@,
    }
}

/// The button of a tab.
pub fn tab_button(tab: Tab, active: Tab) -> (r: TabButton)
    ensures
        is_tab_button(r, tab, active),
{
    let selected = tab == active;
    let tone = if selected {
        Tone::Primary
    } else {
        Tone::Tertiary
    };
    match tab {
        Tab::Overlay => TabButton {
            tab,
            icon: WAVEFORM_ICON,
            label: "Overlay",
            id: "panel-tab-overlay",
            selected,
            tone,
        },
        Tab::Settings => TabButton {
            tab,
            icon: GEAR_ICON,
            label: "Settings",
            id: "panel-tab-settings",
            selected,
            tone,
        },
    }
}

/// The buttons of both tabs, in order; exactly one of them is selected.
pub fn tab_strip(active: Tab) -> (r: Vec<TabButton>)
    ensures
        r@.len() == 2,
        is_tab_button(r@[0], Tab::Overlay, active),
        is_tab_button(r@[1], Tab::Settings, active),
        r@[0].selected != r@[1].selected,
{
    vec![tab_button(Tab::Overlay, active), tab_button(Tab::Settings, active)]
}

/// What is known of the window itself.
#[verifier::ext_equal]
pub ghost struct WindowView {
    pub frame: Presentation,
    pub click_through: bool,
    pub on_screen: bool,
    pub polling: bool,
}

/// The window after something was done to it.
pub open spec fn done_to(window: WindowView, effect: PanelEffect) -> WindowView {
    match effect {
        PanelEffect::Frame(frame) => WindowView { frame, ..window },
        PanelEffect::ClickThrough(click_through) => WindowView { click_through, ..window },
        PanelEffect::MakeKeyAndOrderFront => WindowView { on_screen: true, ..window },
        PanelEffect::OrderFront => WindowView { on_screen: true, ..window },
        PanelEffect::OrderOut => WindowView { on_screen: false, ..window },
        PanelEffect::StartPermissionsPoll => WindowView { polling: true, ..window },
        PanelEffect::StopPermissionsPoll => WindowView { polling: false, ..window },
        _ => window,
    }
}

/// The window after all of this was done to it, in order.
pub open spec fn all_done_to(window: WindowView, effects: Seq<PanelEffect>) -> WindowView
    decreases effects.len(),
{
    if effects.len() == 0 {
        window
    } else {
        done_to(all_done_to(window, effects.drop_last()), effects.last())
    }
}

/// Whether the window is as the panel believes it to be: in the place of its
/// presentation, letting clicks through only as the overlay, and on screen if it
/// is shown.
pub open spec fn window_matches(window: WindowView, panel: PanelState) -> bool {
    &&& window.frame == panel.presentation
    &&& window.click_through == (panel.presentation == Presentation::Hud)
    &&& window.on_screen == panel.shown
    &&& window.polling == panel.polling
}

/// Whatever is done to the panel, doing what it asks for keeps the window as the
/// panel believes it to be. So a session always comes up in the overlay's place
/// with clicks going through, however the window was left.
pub proof fn the_window_always_matches_the_panel(
    window: WindowView,
    panel: PanelState,
    tab: Tab,
    has_session_content: bool,
)
    requires
        panel.wf(),
        window_matches(window, panel),
    ensures
        window_matches(all_done_to(window, show_effects(tab)), opened_on(tab)),
        window_matches(all_done_to(window, hide_effects()), closed_on(panel.active_tab)),
        window_matches(
            all_done_to(window, tray_click_effects(panel, has_session_content)),
            after_tray_click(panel, has_session_content),
        ),
        window_matches(
            all_done_to(window, session_start_effects(panel)),
            after_session_start(panel),
        ),
        window_matches(
            all_done_to(window, session_end_effects(panel)),
            after_session_end(panel),
        ),
{
    opening_matches(window, Tab::Overlay);
    opening_matches(window, Tab::Settings);
    reveal_with_fuel(all_done_to, 6);
}

/// Opening the window leaves it as the panel believes it to be.
proof fn opening_matches(window: WindowView, tab: Tab)
    ensures
        window_matches(all_done_to(window, show_effects(tab)), opened_on(tab)),
{
    reveal_with_fuel(all_done_to, 7);
}

/// Two clicks on the menu-bar item cancel out: a closed panel is closed again, on
/// the tab it would have opened on, and an open one is open again as it was,
/// unless a session came up in between.
pub proof fn two_clicks_cancel_out(panel: PanelState, has_session_content: bool)
    requires
        panel.wf(),
    ensures
        !panel.shown ==> !after_tray_click(
            after_tray_click(panel, has_session_content),
            has_session_content,
        ).shown,
        panel.presentation == Presentation::Full ==> after_tray_click(
            after_tray_click(panel, has_session_content),
            false,
        ) == panel,
{
}

/// Sessions leave the panel as they found it: a closed panel is closed again
/// afterwards, and a window that the user opened stays open and stays where it
/// is.
pub proof fn sessions_leave_the_panel_as_they_found_it(panel: PanelState)
    requires
        panel.wf(),
    ensures
        !panel.shown ==> after_session_end(after_session_start(panel)) == panel,
        panel.presentation == Presentation::Full ==> after_session_end(after_session_start(panel))
            == (PanelState { active_tab: Tab::Overlay, ..panel }),
        panel.presentation == Presentation::Full ==> session_start_effects(panel).len() == 0
            && session_end_effects(panel).len() == 0,
{
}

/// A live session is never hidden: once it has something to show, the panel is on
/// screen and shows it.
pub proof fn a_session_is_always_in_sight(panel: PanelState)
    requires
        panel.wf(),
    ensures
        after_session_start(panel).shown,
        body_of(after_session_start(panel), true) is Hud || body_of(
            after_session_start(panel),
            true,
        ) is Session,
{
}

/// A click on the menu-bar item closes the panel only if the full window is open,
/// and keeps its tab for the next time. From every other state, the overlay on
/// screen among them, the full window is open afterwards, on the overlay tab if
/// there is something of a session to see and on the last tab if not.
pub proof fn a_click_closes_only_the_full_window(panel: PanelState, has_session_content: bool)
    ensures
        ({
            let after = after_tray_click(panel, has_session_content);
            let effects = tray_click_effects(panel, has_session_content);
            if panel.shown && panel.presentation is Full {
                &&& !after.shown
                &&& after.presentation is Hud
                &&& !after.polling
                &&& after.active_tab == panel.active_tab
                &&& effects.contains(PanelEffect::OrderOut)
                &&& effects.contains(PanelEffect::StopPermissionsPoll)
                &&& effects.contains(PanelEffect::CloseDropdowns)
                &&& !effects.contains(PanelEffect::MakeKeyAndOrderFront)
                &&& !effects.contains(PanelEffect::OrderFront)
            } else {
                &&& after.shown
                &&& after.presentation is Full
                &&& after.polling
                &&& has_session_content ==> after.active_tab is Overlay
                &&& !has_session_content ==> after.active_tab == panel.active_tab
                &&& effects.contains(PanelEffect::MakeKeyAndOrderFront)
                &&& effects.contains(PanelEffect::RefreshPermissions)
                &&& effects.contains(PanelEffect::StartPermissionsPoll)
                &&& effects.contains(PanelEffect::RefreshDevices)
                    == (after.active_tab is Settings)
                &&& !effects.contains(PanelEffect::OrderOut)
            }
        }),
{
    let effects = tray_click_effects(panel, has_session_content);
    if panel.shown && panel.presentation is Full {
        assert(effects[0] == PanelEffect::OrderOut);
        assert(effects[1] == PanelEffect::StopPermissionsPoll);
        assert(effects[2] == PanelEffect::CloseDropdowns);
    } else {
        assert(effects[2] == PanelEffect::MakeKeyAndOrderFront);
        assert(effects[effects.len() - 2] == PanelEffect::RefreshPermissions);
        assert(effects[effects.len() - 1] == PanelEffect::StartPermissionsPoll);
        if after_tray_click(panel, has_session_content).active_tab is Settings {
            assert(effects[3] == PanelEffect::RefreshDevices);
        }
    }
}

/// Opening the window on a tab shows that tab, with the focus, once the window is
/// in its place and takes clicks. The microphones are listed again exactly where
/// they are shown, and the permissions are looked at from then on.
pub proof fn opening_shows_the_tab_that_was_asked_for(tab: Tab)
    ensures
        opened_on(tab).active_tab == tab,
        opened_on(tab).presentation is Full,
        opened_on(tab).shown && opened_on(tab).polling,
        show_effects(tab)[0] == PanelEffect::Frame(Presentation::Full),
        show_effects(tab)[1] == PanelEffect::ClickThrough(false),
        show_effects(tab)[2] == PanelEffect::MakeKeyAndOrderFront,
        show_effects(tab).contains(PanelEffect::RefreshDevices) == (tab is Settings),
        show_effects(tab).contains(PanelEffect::RefreshPermissions),
        show_effects(tab).contains(PanelEffect::StartPermissionsPoll),
        !show_effects(tab).contains(PanelEffect::OrderOut),
        !show_effects(tab).contains(PanelEffect::StopPermissionsPoll),
{
    let effects = show_effects(tab);
    assert(effects[effects.len() - 2] == PanelEffect::RefreshPermissions);
    assert(effects[effects.len() - 1] == PanelEffect::StartPermissionsPoll);
    if tab is Settings {
        assert(effects[3] == PanelEffect::RefreshDevices);
    }
}

/// Closing takes the window off the screen first, and leaves it in the overlay's
/// place with clicks going through, its lists closed, and nobody looking at the
/// permissions.
pub proof fn closing_leaves_the_overlay_ready(tab: Tab)
    ensures
        !closed_on(tab).shown && !closed_on(tab).polling,
        closed_on(tab).presentation is Hud,
        closed_on(tab).active_tab == tab,
        hide_effects()[0] == PanelEffect::OrderOut,
        hide_effects().contains(PanelEffect::StopPermissionsPoll),
        hide_effects().contains(PanelEffect::CloseDropdowns),
        hide_effects().contains(PanelEffect::Frame(Presentation::Hud)),
        hide_effects().contains(PanelEffect::ClickThrough(true)),
        !hide_effects().contains(PanelEffect::OrderFront),
        !hide_effects().contains(PanelEffect::MakeKeyAndOrderFront),
{
    assert(hide_effects()[1] == PanelEffect::StopPermissionsPoll);
    assert(hide_effects()[2] == PanelEffect::CloseDropdowns);
    assert(hide_effects()[3] == PanelEffect::Frame(Presentation::Hud));
    assert(hide_effects()[4] == PanelEffect::ClickThrough(true));
}

/// A session brings the overlay up where nothing is on screen, in its place, with
/// clicks going through and without taking the focus; it turns an open window to
/// its overlay tab without touching the window; and it leaves the overlay alone
/// where that is up already. The permissions are looked at as before.
pub proof fn a_session_never_takes_the_focus(panel: PanelState)
    requires
        panel.wf(),
    ensures
        ({
            let after = after_session_start(panel);
            let effects = session_start_effects(panel);
            &&& after.shown
            &&& after.polling == panel.polling
            &&& !effects.contains(PanelEffect::MakeKeyAndOrderFront)
            &&& !panel.shown ==> {
                &&& after.presentation is Hud
                &&& after.active_tab == panel.active_tab
                &&& effects.len() == 3
                &&& effects[0] == PanelEffect::Frame(Presentation::Hud)
                &&& effects[1] == PanelEffect::ClickThrough(true)
                &&& effects[2] == PanelEffect::OrderFront
            }
            &&& panel.shown ==> {
                &&& effects.len() == 0
                &&& after.presentation == panel.presentation
                &&& panel.presentation is Full ==> after.active_tab is Overlay
                &&& panel.presentation is Hud ==> after == panel
            }
        }),
{
}

/// The end of a session takes the overlay off the screen and does nothing else;
/// a window that the user opened is left alone.
pub proof fn the_end_of_a_session_closes_only_the_overlay(panel: PanelState)
    ensures
        ({
            let after = after_session_end(panel);
            let effects = session_end_effects(panel);
            &&& after.presentation == panel.presentation
            &&& after.active_tab == panel.active_tab
            &&& after.polling == panel.polling
            &&& panel.presentation is Hud ==> !after.shown && effects.len() == 1 && effects[0]
                == PanelEffect::OrderOut
            &&& panel.presentation is Full ==> after.shown == panel.shown && effects.len() == 0
        }),
{
}

/// The overlay is filled with the session in its own frame; the window with the
/// settings on their tab, and on the other tab with the session while there is
/// something of one to see and with the status while there is not.
pub proof fn what_the_panel_is_filled_with(panel: PanelState, has_session_content: bool)
    ensures
        body_of(panel, has_session_content) is Hud <==> panel.presentation is Hud,
        body_of(panel, has_session_content) is Settings <==> panel.presentation is Full
            && panel.active_tab is Settings,
        body_of(panel, has_session_content) is Session <==> panel.presentation is Full
            && panel.active_tab is Overlay && has_session_content,
        body_of(panel, has_session_content) is Idle <==> panel.presentation is Full
            && panel.active_tab is Overlay && !has_session_content,
{
}

/// A tab's button leads to that tab, says so in words and picture, and stands out
/// exactly while the tab is open.
pub proof fn a_tab_s_button_leads_to_it(button: TabButton, tab: Tab, active: Tab)
    requires
        is_tab_button(button, tab, active),
    ensures
        button.tab == tab,
        button.selected <==> tab == active,
        button.tone == Tone::Primary <==> tab == active,
        tab != active ==> button.tone == Tone::Tertiary,
        tab is Overlay ==> button.label@ == "Overlay"@ && button.icon@ == "icons/waveform.svg"@
            && button.id@ == "panel-tab-overlay"@,
        tab is Settings ==> button.label@ == "Settings"@ && button.icon@ == "icons/gear.svg"@
            && button.id@ == "panel-tab-settings"@,
{
}

/// The panel and what has to be done after a click on a tab.
pub open spec fn after_tab_click(panel: PanelState, tab: Tab) -> (PanelState, Seq<PanelEffect>) {
    (
        PanelState { active_tab: tab, ..panel },
        if tab == Tab::Settings {
            seq![PanelEffect::RefreshDevices]
        } else {
            Seq::empty()
        },
    )
}

/// A click on a tab opens that tab and leaves the window as it is; the microphones
/// are listed again exactly where they come into sight.
pub proof fn a_click_on_a_tab_opens_it(panel: PanelState, tab: Tab)
    ensures
        ({
            let (after, effects) = after_tab_click(panel, tab);
            &&& after.active_tab == tab
            &&& after.presentation == panel.presentation
            &&& after.shown == panel.shown
            &&& after.polling == panel.polling
            &&& tab is Settings ==> effects == seq![PanelEffect::RefreshDevices]
            &&& tab is Overlay ==> effects.len() == 0
        }),
{
}

} // verus!
