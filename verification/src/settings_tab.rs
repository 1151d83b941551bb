//! The settings tab: which lists are open on it, and what it shows.

use vstd::prelude::*;
use vstd::string::StringExecFns;

use crate::app_status::{hotkey_after_start, text_view, HotkeyState, StatusModel, StatusView};
use crate::domain::{Manifest, ProvisionCommand, ProvisionCommandView};
use crate::hotkey_presets::{
    all_hotkeys, config_of, every_hotkey_is_offered_once, to_hotkey_config, HotkeyConfig,
    HotkeyLabels, HotkeySetting,
};
use crate::languages::{backend_of, languages_text};
use crate::model_rows::{speech_model_parts, speech_model_section};
use crate::parts::{
    button, line, no_parts, part_views, push_part, push_parts, Action, ActionView, Fill, Part,
    PartView,
};
use crate::readiness::{
    access_of, all_permissions, description_of, label_of, missing_among, Access, LiveAccess,
    Permission,
};
use crate::text::{holds_text, join2, text_views};
use crate::theme::Tone;

verus! {

/// The state of the settings tab.
#[derive(Debug, PartialEq, Eq)]
pub struct SettingsTab {
    /// The microphones, as last listed.
    pub devices: Vec<String>,
    pub mic_open: bool,
    pub hotkey_open: bool,
    pub model_open: bool,
}

/// What choosing a hotkey leads to.
#[derive(Debug, Clone, Copy, PartialEq, Eq, Structural)]
pub struct HotkeyChange {
    /// The state of the hotkey, where there is a listener to ask.
    pub state: Option<HotkeyState>,
    /// Whether the user is asked for the permission that the listener needs.
    pub prompt_accessibility: bool,
}

/// The microphones to show: those listed, or none where they could not be.
pub fn devices_or_none(listed: Result<Vec<String>, String>) -> (r: Vec<String>)
    ensures
        match listed {
            Ok(devices) => r == devices,
            Err(_) => r@.len() == 0,
        },
{
    match listed {
        Ok(devices) => devices,
        Err(_) => Vec::new(),
    }
}

impl SettingsTab {
    /// At most one list is open.
    pub open spec fn wf(&self) -> bool {
        &&& !(self.mic_open && self.hotkey_open)
        &&& !(self.mic_open && self.model_open)
        &&& !(self.hotkey_open && self.model_open)
    }

    /// A tab with every list closed.
    pub fn new(devices: Vec<String>) -> (r: Self)
        ensures
            r.wf(),
            r == (SettingsTab { devices, mic_open: false, hotkey_open: false, model_open: false }),
    {
        SettingsTab { devices, mic_open: false, hotkey_open: false, model_open: false }
    }

    /// Take in the microphones as listed now.
    pub fn refresh_devices(&mut self, devices: Vec<String>)
        ensures
            *final(self) == (SettingsTab { devices, ..*old(self) }),
    {
        self.devices = devices;
    }

    /// Close every list.
    pub fn close_dropdowns(&mut self)
        ensures
            *final(self) == all_closed(*old(self)),
            final(self).wf(),
            *final(self) == (SettingsTab {
                mic_open: false,
                hotkey_open: false,
                model_open: false,
                ..*old(self)
            }),
    {
        self.mic_open = false;
        self.hotkey_open = false;
        self.model_open = false;
    }

    /// Open or close the list of models; the other lists close.
    pub fn toggle_models(&mut self)
        ensures
            *final(self) == toggled(*old(self), TabList::Models),
            final(self).wf(),
            *final(self) == (SettingsTab {
                model_open: !old(self).model_open,
                mic_open: false,
                hotkey_open: false,
                ..*old(self)
            }),
    {
        self.model_open = !self.model_open;
        self.mic_open = false;
        self.hotkey_open = false;
    }

    /// Open or close the list of microphones; the other lists close. A list that
    /// opens is listed afresh, which is what the result asks for.
    pub fn toggle_microphones(&mut self) -> (r: bool)
        ensures
            *final(self) == toggled(*old(self), TabList::Microphones),
            final(self).wf(),
            *final(self) == (SettingsTab {
                mic_open: !old(self).mic_open,
                hotkey_open: false,
                model_open: false,
                ..*old(self)
            }),
            r == final(self).mic_open,
    {
        let opening = !self.mic_open;
        self.mic_open = opening;
        self.hotkey_open = false;
        self.model_open = false;
        opening
    }

    /// Open or close the list of hotkeys; the other lists close.
    pub fn toggle_hotkeys(&mut self)
        ensures
            *final(self) == toggled(*old(self), TabList::Hotkeys),
            final(self).wf(),
            *final(self) == (SettingsTab {
                hotkey_open: !old(self).hotkey_open,
                mic_open: false,
                model_open: false,
                ..*old(self)
            }),
    {
        self.hotkey_open = !self.hotkey_open;
        self.mic_open = false;
        self.model_open = false;
    }

    /// A microphone was chosen: its list closes. It is used from the next session
    /// on.
    pub fn select_microphone(&mut self)
        ensures
            *final(self) == chosen_from(*old(self), TabList::Microphones),
            *final(self) == (SettingsTab { mic_open: false, ..*old(self) }),
            old(self).wf() ==> final(self).wf(),
    {
        self.mic_open = false;
    }

    /// A model was chosen: its list closes, and the provisioning loop is told. It
    /// alone saves the choice and loads the model.
    pub fn select_model(&mut self, id: String) -> (r: ProvisionCommand)
        ensures
            *final(self) == chosen_from(*old(self), TabList::Models),
            *final(self) == (SettingsTab { model_open: false, ..*old(self) }),
            old(self).wf() ==> final(self).wf(),
            r@ == ProvisionCommandView::SelectModel(id@),
    {
        self.model_open = false;
        ProvisionCommand::SelectModel(id)
    }

    /// A hotkey was chosen: its list closes, and the listener, where there is one,
    /// is set to it with `rebind`, which says whether that worked.
    pub fn select_hotkey<F: FnOnce(HotkeyConfig) -> bool>(
        &mut self,
        preset: HotkeySetting,
        rebind: Option<F>,
    ) -> (r: HotkeyChange)
        requires
            rebind matches Some(f) ==> f.requires((config_of(preset),)),
        ensures
            *final(self) == chosen_from(*old(self), TabList::Hotkeys),
            *final(self) == (SettingsTab { hotkey_open: false, ..*old(self) }),
            old(self).wf() ==> final(self).wf(),
            match rebind {
                None => r == (HotkeyChange { state: None, prompt_accessibility: false }),
                Some(f) => exists|started: bool| #[trigger]
                    f.ensures((config_of(preset),), started) && r == rebound(preset, started),
            },
    {
        self.hotkey_open = false;
        match rebind {
            None => HotkeyChange { state: None, prompt_accessibility: false },
            Some(f) => {
                let started = f(to_hotkey_config(preset));
                hotkey_rebound(preset, started)
            },
        }
    }
}

/// What choosing a hotkey leads to once the listener was set to it.
pub open spec fn rebound(preset: HotkeySetting, started: bool) -> HotkeyChange {
    HotkeyChange {
        state: Some(
            if started {
                HotkeyState::Active(preset)
            } else {
                HotkeyState::Failed(preset)
            },
        ),
        prompt_accessibility: !started,
    }
}

/// What choosing a hotkey leads to once the listener was set to it: where that
/// failed, the permission it needs is missing.
pub fn hotkey_rebound(preset: HotkeySetting, started: bool) -> (r: HotkeyChange)
    ensures
        r == rebound(preset, started),
{
    HotkeyChange {
        state: Some(hotkey_after_start(preset, started)),
        prompt_accessibility: !started,
    }
}

/// Whether there is anything to show about models: not before the provisioning
/// loop has listed them.
pub fn shows_speech_model_section(status: &StatusModel) -> (r: bool)
    ensures
        r == (status@.models.len() > 0),
{
    status.models.len() > 0
}

/// The hotkey that a state is about.
pub open spec fn preset_of(state: HotkeyState) -> HotkeySetting {
    match state {
        HotkeyState::Active(preset) => preset,
        HotkeyState::Failed(preset) => preset,
    }
}

/// The words for the hotkey that a state is about.
pub fn hotkey_label(state: HotkeyState, labels: &HotkeyLabels) -> (r: String)
    ensures
        r@ == labels.text(preset_of(state)),
{
    match state {
        HotkeyState::Active(preset) => labels.label(preset).to_owned(),
        HotkeyState::Failed(preset) => labels.label(preset).to_owned(),
    }
}

/// What a permission's row is like.
#[derive(Debug, Clone, Copy, PartialEq, Eq, Structural)]
pub enum RowKind {
    Granted,
    /// Granted, but too late for the hotkey: the application has to be started
    /// again.
    GrantedNeedsRelaunch,
    Promptable,
    Denied,
}

/// What a permission's row is like.
pub open spec fn row_kind_of(access: Access, is_accessibility: bool, hotkey_failed: bool) -> RowKind {
    match access {
        Access::Granted => if is_accessibility && hotkey_failed {
            RowKind::GrantedNeedsRelaunch
        } else {
            RowKind::Granted
        },
        Access::Promptable => RowKind::Promptable,
        Access::Denied => RowKind::Denied,
    }
}

/// What a permission's row is like.
pub fn permission_row_kind(access: Access, is_accessibility: bool, hotkey_failed: bool) -> (r: RowKind)
    ensures
        r == row_kind_of(access, is_accessibility, hotkey_failed),
{
    match access {
        Access::Granted => if is_accessibility && hotkey_failed {
            RowKind::GrantedNeedsRelaunch
        } else {
            RowKind::Granted
        },
        Access::Promptable => RowKind::Promptable,
        Access::Denied => RowKind::Denied,
    }
}

/// How the chosen microphone stands.
#[derive(Debug, PartialEq, Eq)]
pub enum MicDisplay {
    SystemDefault,
    Connected(String),
    /// Chosen, but not there: the system's default is used until it returns.
    Missing(String),
}

/// [`MicDisplay`] as a mathematical value.
#[verifier::ext_equal]
pub ghost enum MicDisplayView {
    SystemDefault,
    Connected(Seq<char>),
    Missing(Seq<char>),
}

impl View for MicDisplay {
    type V = MicDisplayView;

    open spec fn view(&self) -> MicDisplayView {
        match *self {
            MicDisplay::SystemDefault => MicDisplayView::SystemDefault,
            MicDisplay::Connected(name) => MicDisplayView::Connected(name@),
            MicDisplay::Missing(name) => MicDisplayView::Missing(name@),
        }
    }
}

/// How the chosen microphone stands.
pub open spec fn mic_display_of(chosen: Option<Seq<char>>, devices: Seq<Seq<char>>) -> MicDisplayView {
    match chosen {
        None => MicDisplayView::SystemDefault,
        Some(name) => if devices.contains(name) {
            MicDisplayView::Connected(name)
        } else {
            MicDisplayView::Missing(name)
        },
    }
}

/// How the chosen microphone stands. A choice is never forgotten because the
/// microphone is away.
pub fn mic_display(chosen: &Option<String>, devices: &Vec<String>) -> (r: MicDisplay)
    ensures
        r@ == mic_display_of(text_view(*chosen), text_views(devices@)),
{
    match chosen {
        None => MicDisplay::SystemDefault,
        Some(name) => if holds_text(devices, name.as_str()) {
            MicDisplay::Connected(name.clone())
        } else {
            MicDisplay::Missing(name.clone())
        },
    }
}

/// The words for the chosen microphone, and how they are toned.
pub open spec fn mic_words(display: MicDisplayView) -> (Seq<char>, Tone) {
    match display {
        MicDisplayView::SystemDefault => ("System Default"@, Tone::Primary),
        MicDisplayView::Connected(name) => (name, Tone::Primary),
        MicDisplayView::Missing(name) => (name, Tone::Warning),
    }
}

/// The words for the chosen microphone, and how they are toned.
pub fn mic_label(display: &MicDisplay) -> (r: (String, Tone))
    ensures
        (r.0@, r.1) == mic_words(display@),
{
    match display {
        MicDisplay::SystemDefault => ("System Default".to_owned(), Tone::Primary),
        MicDisplay::Connected(name) => (name.clone(), Tone::Primary),
        MicDisplay::Missing(name) => (name.clone(), Tone::Warning),
    }
}

/// One entry of the list of microphones.
pub open spec fn mic_choice(name: Seq<char>, tone: Tone) -> PartView {
    PartView::Choice {
        label: name,
        tone,
        action: ActionView::ChooseMicrophone(Some(name)),
    }
}

/// The entries of the list of microphones for the devices at hand.
pub open spec fn device_parts(devices: Seq<Seq<char>>) -> Seq<PartView> {
    seq![
        PartView::Choice {
            label: "System Default"@,
            tone: Tone::Primary,
            action: ActionView::ChooseMicrophone(None),
        },
    ] + devices.map_values(|name: Seq<char>| mic_choice(name, Tone::Primary))
}

/// The entries of the list of microphones for the devices at hand: the system's
/// default, then each of them.
pub fn device_options(devices: &Vec<String>) -> (r: Vec<Part>)
    ensures
        part_views(r@) == device_parts(text_views(devices@)),
{
    let ghost all = text_views(devices@);
    let mut parts = no_parts();
    push_part(
        &mut parts,
        Part::Choice {
            label: "System Default".to_owned(),
            tone: Tone::Primary,
            action: Action::ChooseMicrophone(None),
        },
    );
    let mut i: usize = 0;
    while i < devices.len()
        invariant
            i <= devices@.len(),
            all == text_views(devices@),
            part_views(parts@) == device_parts(all.take(i as int)),
        decreases devices@.len() - i,
    {
        push_part(
            &mut parts,
            Part::Choice {
                label: devices[i].clone(),
                tone: Tone::Primary,
                action: Action::ChooseMicrophone(Some(devices[i].clone())),
            },
        );
        i = i + 1;
    }
    parts
}

/// The entries of the list of microphones.
pub open spec fn mic_option_parts(display: MicDisplayView, devices: Seq<Seq<char>>) -> Seq<PartView> {
    device_parts(devices) + match display {
        MicDisplayView::Missing(name) => seq![mic_choice(name, Tone::Disabled)],
        _ => Seq::empty(),
    }
}

/// The entries of the list of microphones: those at hand, and the chosen one even
/// if it is away, so that it can be kept.
pub fn mic_options(display: &MicDisplay, devices: &Vec<String>) -> (r: Vec<Part>)
    ensures
        part_views(r@) == mic_option_parts(display@, text_views(devices@)),
{
    let mut parts = device_options(devices);
    if let MicDisplay::Missing(name) = display {
        push_part(
            &mut parts,
            Part::Choice {
                label: name.clone(),
                tone: Tone::Disabled,
                action: Action::ChooseMicrophone(Some(name.clone())),
            },
        );
    }
    parts
}

/// The microphone section.
pub open spec fn mic_parts(
    chosen: Option<Seq<char>>,
    devices: Seq<Seq<char>>,
    open: bool,
) -> Seq<PartView> {
    let display = mic_display_of(chosen, devices);
    seq![
        PartView::Label("Microphone"@),
        PartView::Dropdown {
            label: mic_words(display).0,
            tone: mic_words(display).1,
            action: ActionView::ToggleMicrophones,
        },
    ] + (if display is Missing {
        seq![
            PartView::Line {
                text: "Not connected — using System Default until it returns."@,
                tone: Tone::Warning,
            },
        ]
    } else {
        Seq::empty()
    }) + (if open {
        mic_option_parts(display, devices)
    } else {
        Seq::empty()
    })
}

/// The microphone section: the chosen one, a note where it is away, and the list
/// to choose from where it is open.
pub fn mic_row(chosen: &Option<String>, devices: &Vec<String>, open: bool) -> (r: Vec<Part>)
    ensures
        part_views(r@) == mic_parts(text_view(*chosen), text_views(devices@), open),
{
    let display = mic_display(chosen, devices);
    let (label, tone) = mic_label(&display);
    let mut parts = no_parts();
    push_part(&mut parts, Part::Label("Microphone".to_owned()));
    push_part(&mut parts, Part::Dropdown { label, tone, action: Action::ToggleMicrophones });
    if let MicDisplay::Missing(_) = &display {
        push_part(
            &mut parts,
            line("Not connected — using System Default until it returns.", Tone::Warning),
        );
    }
    if open {
        push_parts(&mut parts, mic_options(&display, devices));
    }
    parts
}

/// One entry of the list of hotkeys.
pub open spec fn hotkey_choice(preset: HotkeySetting, labels: HotkeyLabels) -> PartView {
    PartView::Choice {
        label: labels.text(preset),
        tone: Tone::Primary,
        action: ActionView::ChooseHotkey(preset),
    }
}

/// The entries of the list of hotkeys.
pub open spec fn hotkey_option_parts(labels: HotkeyLabels) -> Seq<PartView> {
    all_hotkeys().map_values(|preset: HotkeySetting| hotkey_choice(preset, labels))
}

/// The entries of the list of hotkeys.
pub fn hotkey_options(labels: &HotkeyLabels) -> (r: Vec<Part>)
    ensures
        part_views(r@) == hotkey_option_parts(*labels),
{
    let all = HotkeySetting::ALL;
    let mut parts = no_parts();
    let mut i: usize = 0;
    while i < 5
        invariant
            i <= 5,
            all@ == all_hotkeys(),
            part_views(parts@) == hotkey_option_parts(*labels).take(i as int),
        decreases 5 - i,
    {
        let preset = all[i];
        push_part(
            &mut parts,
            Part::Choice {
                label: labels.label(preset).to_owned(),
                tone: Tone::Primary,
                action: Action::ChooseHotkey(preset),
            },
        );
        i = i + 1;
    }
    parts
}

/// What is said of a hotkey that is not listened for.
pub open spec fn hotkey_failure_text(label: Seq<char>) -> Seq<char> {
    "Hotkey inactive — Vuho can't listen for "@ + label
        + ". Re-grant Accessibility, then relaunch."@
}

/// The hotkey section.
pub open spec fn hotkey_parts(state: HotkeyState, labels: HotkeyLabels, open: bool) -> Seq<PartView> {
    let label = labels.text(preset_of(state));
    seq![
        PartView::Label("Hotkey"@),
        PartView::Dropdown { label, tone: Tone::Primary, action: ActionView::ToggleHotkeys },
    ] + (if open {
        hotkey_option_parts(labels)
    } else {
        Seq::empty()
    }) + (if state is Failed {
        seq![
            PartView::Line { text: hotkey_failure_text(label), tone: Tone::Failure },
            PartView::Button {
                label: "Relaunch Vuho"@,
                fill: Fill::Confirm,
                action: ActionView::Relaunch,
            },
        ]
    } else {
        Seq::empty()
    })
}

/// The hotkey section: the chosen one, the list to choose from where it is open,
/// and what to do where it is not listened for.
pub fn hotkey_row(state: HotkeyState, labels: &HotkeyLabels, open: bool) -> (r: Vec<Part>)
    ensures
        part_views(r@) == hotkey_parts(state, *labels, open),
{
    let label = hotkey_label(state, labels);
    let mut parts = no_parts();
    push_part(&mut parts, Part::Label("Hotkey".to_owned()));
    push_part(
        &mut parts,
        Part::Dropdown {
            label: label.clone(),
            tone: Tone::Primary,
            action: Action::ToggleHotkeys,
        },
    );
    if open {
        push_parts(&mut parts, hotkey_options(labels));
    }
    if let HotkeyState::Failed(_) = state {
        let mut text = join2("Hotkey inactive — Vuho can't listen for ", label.as_str());
        text.append(". Re-grant Accessibility, then relaunch.");
        push_part(&mut parts, Part::Line { text, tone: Tone::Failure });
        push_part(&mut parts, button("Relaunch Vuho", Fill::Confirm, Action::Relaunch));
    }
    parts
}

/// How a permission stands, going by the list of missing ones: what is not on it
/// is granted.
pub open spec fn listed_access(missing: Seq<(Permission, Access)>, permission: Permission) -> Access
    decreases missing.len(),
{
    if missing.len() == 0 {
        Access::Granted
    } else if missing[0].0 == permission {
        missing[0].1
    } else {
        listed_access(missing.drop_first(), permission)
    }
}

/// How a permission stands, going by the list of missing ones.
pub fn permission_access(missing: &Vec<(Permission, Access)>, permission: Permission) -> (r: Access)
    ensures
        r == listed_access(missing@, permission),
{
    let mut i: usize = 0;
    assert(missing@.skip(0) =~= missing@);
    while i < missing.len()
        invariant
            i <= missing@.len(),
            listed_access(missing@, permission) == listed_access(
                missing@.skip(i as int),
                permission,
            ),
        decreases missing@.len() - i,
    {
        assert(missing@.skip(i as int).drop_first() =~= missing@.skip(i + 1));
        if missing[i].0 == permission {
            return missing[i].1;
        }
        i = i + 1;
    }
    Access::Granted
}

/// The head of a permission's row.
pub open spec fn permission_header_parts(permission: Permission, access: Access) -> Seq<PartView> {
    seq![
        PartView::Name(label_of(permission)),
        PartView::Line { text: description_of(permission), tone: Tone::Tertiary },
    ] + (if permission is Accessibility && access != Access::Granted {
        seq![
            PartView::Line {
                text: "Vuho must be relaunched after granting."@,
                tone: Tone::Tertiary,
            },
        ]
    } else {
        Seq::empty()
    })
}

/// What a permission's row offers.
pub open spec fn permission_action_parts(permission: Permission, kind: RowKind) -> Seq<PartView> {
    match kind {
        RowKind::Granted => seq![PartView::Line { text: "✓ Granted"@, tone: Tone::Success }],
        RowKind::GrantedNeedsRelaunch => seq![
            PartView::Line { text: "Granted — relaunch required"@, tone: Tone::Warning },
            PartView::Button {
                label: "Relaunch Vuho"@,
                fill: Fill::Confirm,
                action: ActionView::Relaunch,
            },
        ],
        RowKind::Promptable => seq![
            PartView::Button {
                label: "Allow "@ + label_of(permission),
                fill: Fill::Accent,
                action: ActionView::Request(permission),
            },
        ],
        RowKind::Denied => seq![
            PartView::Line { text: "Access denied"@, tone: Tone::Failure },
            PartView::Button {
                label: "Open System Settings"@,
                fill: Fill::Accent,
                action: ActionView::OpenSystemSettings(permission),
            },
        ],
    }
}

/// What a permission's row offers.
pub fn permission_action(permission: Permission, kind: RowKind) -> (r: Vec<Part>)
    ensures
        part_views(r@) == permission_action_parts(permission, kind),
{
    let parts = match kind {
        RowKind::Granted => vec![line("✓ Granted", Tone::Success)],
        RowKind::GrantedNeedsRelaunch => vec![
            line("Granted — relaunch required", Tone::Warning),
            button("Relaunch Vuho", Fill::Confirm, Action::Relaunch),
        ],
        RowKind::Promptable => vec![
            button(
                join2("Allow ", permission.label()).as_str(),
                Fill::Accent,
                Action::Request(permission),
            ),
        ],
        RowKind::Denied => vec![
            line("Access denied", Tone::Failure),
            button("Open System Settings", Fill::Accent, Action::OpenSystemSettings(permission)),
        ],
    };
    parts
}

/// A permission's row.
pub open spec fn permission_parts(
    permission: Permission,
    access: Access,
    hotkey_failed: bool,
) -> Seq<PartView> {
    permission_header_parts(permission, access) + permission_action_parts(
        permission,
        row_kind_of(access, permission is Accessibility, hotkey_failed),
    )
}

/// A permission's row: what it is for, and what can be done about it.
pub fn permission_row(permission: Permission, access: Access, hotkey_failed: bool) -> (r: Vec<Part>)
    ensures
        part_views(r@) == permission_parts(permission, access, hotkey_failed),
{
    let is_accessibility = permission == Permission::Accessibility;
    let mut parts = no_parts();
    push_part(&mut parts, Part::Name(permission.label().to_owned()));
    push_part(&mut parts, line(permission.description(), Tone::Tertiary));
    if is_accessibility && access != Access::Granted {
        push_part(&mut parts, line("Vuho must be relaunched after granting.", Tone::Tertiary));
    }
    let kind = permission_row_kind(access, is_accessibility, hotkey_failed);
    push_parts(&mut parts, permission_action(permission, kind));
    parts
}

/// The rows of a list of permissions.
pub open spec fn permission_list_parts(
    permissions: Seq<Permission>,
    missing: Seq<(Permission, Access)>,
    hotkey_failed: bool,
) -> Seq<PartView>
    decreases permissions.len(),
{
    if permissions.len() == 0 {
        Seq::empty()
    } else {
        permission_list_parts(permissions.drop_last(), missing, hotkey_failed) + permission_parts(
            permissions.last(),
            listed_access(missing, permissions.last()),
            hotkey_failed,
        )
    }
}

/// The permissions section.
pub open spec fn permissions_parts(
    missing: Seq<(Permission, Access)>,
    launch_blocked: bool,
    hotkey_failed: bool,
) -> Seq<PartView> {
    seq![PartView::Label("Permissions"@)] + (if missing.len() == 0 && !launch_blocked {
        seq![
            PartView::Line { text: "✓"@, tone: Tone::Success },
            PartView::Line { text: "All permissions granted"@, tone: Tone::Secondary },
        ]
    } else {
        permission_list_parts(all_permissions(), missing, hotkey_failed)
    }) + (if launch_blocked && missing.len() == 0 {
        seq![
            PartView::Line {
                text: "All permissions granted — relaunch Vuho to finish setup."@,
                tone: Tone::Primary,
            },
            PartView::Button {
                label: "Relaunch Vuho"@,
                fill: Fill::Confirm,
                action: ActionView::Relaunch,
            },
        ]
    } else {
        Seq::empty()
    })
}

/// The permissions section: that all is well, or one row for each permission, and
/// the way to start again where the launch was blocked and nothing is missing any
/// more. The rows go by the list of missing permissions alone.
pub fn permissions_section(
    missing: &Vec<(Permission, Access)>,
    launch_blocked: bool,
    hotkey: HotkeyState,
) -> (r: Vec<Part>)
    ensures
        part_views(r@) == permissions_parts(missing@, launch_blocked, hotkey is Failed),
{
    let hotkey_failed = match hotkey {
        HotkeyState::Failed(_) => true,
        HotkeyState::Active(_) => false,
    };
    let none_missing = missing.len() == 0;
    let mut parts = no_parts();
    push_part(&mut parts, Part::Label("Permissions".to_owned()));
    let ghost head = seq![PartView::Label("Permissions"@)];
    if none_missing && !launch_blocked {
        push_part(&mut parts, line("✓", Tone::Success));
        push_part(&mut parts, line("All permissions granted", Tone::Secondary));
    } else {
        let all = Permission::ALL;
        let mut i: usize = 0;
        while i < 3
            invariant
                i <= 3,
                all@ == all_permissions(),
                part_views(parts@) == head + permission_list_parts(
                    all@.take(i as int),
                    missing@,
                    hotkey_failed,
                ),
            decreases 3 - i,
        {
            assert(all@.take(i + 1).drop_last() =~= all@.take(i as int));
            let access = permission_access(missing, all[i]);
            push_parts(&mut parts, permission_row(all[i], access, hotkey_failed));
            i = i + 1;
        }
        assert(all@.take(3) =~= all_permissions());
    }
    if launch_blocked && none_missing {
        push_part(
            &mut parts,
            line("All permissions granted — relaunch Vuho to finish setup.", Tone::Primary),
        );
        push_part(&mut parts, button("Relaunch Vuho", Fill::Confirm, Action::Relaunch));
    }
    parts
}

/// The warning that the settings could not be read.
pub open spec fn warning_parts(detail: Seq<char>) -> Seq<PartView> {
    seq![
        PartView::Line {
            text: "Settings could not be read — defaults are in use."@,
            tone: Tone::Warning,
        },
        PartView::Line { text: detail, tone: Tone::Secondary },
    ]
}

/// The warning that the settings could not be read.
pub fn settings_warning_banner(detail: &str) -> (r: Vec<Part>)
    ensures
        part_views(r@) == warning_parts(detail@),
{
    let parts = vec![
        line("Settings could not be read — defaults are in use.", Tone::Warning),
        line(detail, Tone::Secondary),
    ];
    parts
}

/// The sections of the settings tab.
#[derive(Debug, Clone, Copy, PartialEq, Eq, Structural)]
pub enum SectionKind {
    Warning,
    SpeechModel,
    Permissions,
    Microphone,
    Hotkey,
}

/// One section of the settings tab.
#[derive(Debug, PartialEq, Eq)]
pub struct Section {
    pub kind: SectionKind,
    pub parts: Vec<Part>,
}

/// [`Section`] as a mathematical value.
#[verifier::ext_equal]
pub ghost struct SectionView {
    pub kind: SectionKind,
    pub parts: Seq<PartView>,
}

impl View for Section {
    type V = SectionView;

    open spec fn view(&self) -> SectionView {
        SectionView { kind: self.kind, parts: part_views(self.parts@) }
    }
}

/// Sections as a sequence of mathematical values.
pub open spec fn section_views(sections: Seq<Section>) -> Seq<SectionView> {
    sections.map_values(|s: Section| s@)
}

/// What the settings store and the system say, as far as the settings tab shows
/// it.
#[derive(Debug, PartialEq, Eq)]
pub struct SettingsInputs {
    /// The selected model.
    pub selected: String,
    /// The chosen microphone.
    pub microphone: Option<String>,
    pub manifest: Manifest,
    pub labels: HotkeyLabels,
    /// The languages that the system can report.
    pub mapped_languages: Vec<String>,
    /// The languages that an engine that takes the language as a prompt knows.
    pub prompted_languages: Vec<String>,
}

/// What the settings tab shows, section by section.
pub open spec fn tab_sections(
    tab: SettingsTab,
    status: StatusView,
    inputs: SettingsInputs,
) -> Seq<SectionView> {
    (match status.settings_load_warning {
        Some(detail) => seq![
            SectionView { kind: SectionKind::Warning, parts: warning_parts(detail) },
        ],
        None => Seq::empty(),
    }) + (if status.models.len() > 0 {
        seq![
            SectionView {
                kind: SectionKind::SpeechModel,
                parts: speech_model_parts(
                    status.models,
                    status.engine,
                    status.recording,
                    tab.model_open,
                    inputs.selected@,
                    languages_text(
                        backend_of(inputs.manifest, inputs.selected@),
                        text_views(inputs.mapped_languages@),
                        text_views(inputs.prompted_languages@),
                    ),
                    inputs.manifest,
                ),
            },
        ]
    } else {
        Seq::empty()
    }) + seq![
        SectionView {
            kind: SectionKind::Permissions,
            parts: permissions_parts(
                status.permissions_missing,
                status.launch_blocked,
                status.hotkey is Failed,
            ),
        },
        SectionView {
            kind: SectionKind::Microphone,
            parts: mic_parts(text_view(inputs.microphone), text_views(tab.devices@), tab.mic_open),
        },
        SectionView {
            kind: SectionKind::Hotkey,
            parts: hotkey_parts(status.hotkey, inputs.labels, tab.hotkey_open),
        },
    ]
}

impl SettingsTab {
    /// What the settings tab shows, section by section: a warning where the
    /// settings could not be read, the models once they are known, the
    /// permissions, the microphone and the hotkey.
    pub fn sections(&self, status: &StatusModel, inputs: &SettingsInputs) -> (r: Vec<Section>)
        ensures
            section_views(r@) == tab_sections(*self, status@, *inputs),
    {
        let mut sections: Vec<Section> = Vec::new();
        if let Some(detail) = &status.settings_load_warning {
            sections.push(
                Section {
                    kind: SectionKind::Warning,
                    parts: settings_warning_banner(detail.as_str()),
                },
            );
        }
        if shows_speech_model_section(status) {
            let parts = speech_model_section(
                &status.models,
                &status.engine,
                status.recording,
                self.model_open,
                inputs.selected.as_str(),
                &inputs.manifest,
                &inputs.mapped_languages,
                &inputs.prompted_languages,
            );
            sections.push(Section { kind: SectionKind::SpeechModel, parts });
        }
        sections.push(
            Section {
                kind: SectionKind::Permissions,
                parts: permissions_section(
                    &status.permissions_missing,
                    status.launch_blocked,
                    status.hotkey,
                ),
            },
        );
        sections.push(
            Section {
                kind: SectionKind::Microphone,
                parts: mic_row(&inputs.microphone, &self.devices, self.mic_open),
            },
        );
        sections.push(
            Section {
                kind: SectionKind::Hotkey,
                parts: hotkey_row(status.hotkey, &inputs.labels, self.hotkey_open),
            },
        );
        sections
    }
}

/// What the rows say of a permission is what the system said of it.
pub proof fn rows_say_what_the_system_said(permission: Permission, live: LiveAccess)
    ensures
        listed_access(missing_among(all_permissions(), live), permission) == access_of(
            permission,
            live,
        ),
{
    reveal_with_fuel(missing_among, 4);
    reveal_with_fuel(listed_access, 4);
}

/// The permissions section ends in the offer to start again whenever that is all
/// that is left to do.
pub proof fn the_relaunch_is_offered_when_it_is_all_that_is_left(hotkey_failed: bool)
    ensures
        permissions_parts(Seq::empty(), true, hotkey_failed).last() == (PartView::Button {
            label: "Relaunch Vuho"@,
            fill: Fill::Confirm,
            action: ActionView::Relaunch,
        }),
{
}

/// The chosen microphone can always be kept: it is on the list, even while it is
/// away.
pub proof fn the_chosen_microphone_is_always_on_the_list(
    name: Seq<char>,
    devices: Seq<Seq<char>>,
)
    ensures
        exists|tone: Tone| #[trigger]
            mic_option_parts(mic_display_of(Some(name), devices), devices).contains(
                mic_choice(name, tone),
            ),
{
    let parts = mic_option_parts(mic_display_of(Some(name), devices), devices);
    if devices.contains(name) {
        let i = choose|i: int| 0 <= i < devices.len() && devices[i] == name;
        assert(parts[i + 1] == mic_choice(name, Tone::Primary));
        assert(parts.contains(mic_choice(name, Tone::Primary)));
    } else {
        assert(parts[parts.len() - 1] == mic_choice(name, Tone::Disabled));
        assert(parts.contains(mic_choice(name, Tone::Disabled)));
    }
}

/// The open list of hotkeys has one entry for each hotkey, and the entry that is
/// labelled with a hotkey's words chooses that very hotkey.
pub proof fn every_hotkey_can_be_chosen_by_its_words(
    preset: HotkeySetting,
    state: HotkeyState,
    labels: HotkeyLabels,
)
    ensures
        hotkey_option_parts(labels).len() == 5,
        hotkey_option_parts(labels).contains(
            PartView::Choice {
                label: labels.text(preset),
                tone: Tone::Primary,
                action: ActionView::ChooseHotkey(preset),
            },
        ),
        hotkey_parts(state, labels, true).contains(
            PartView::Choice {
                label: labels.text(preset),
                tone: Tone::Primary,
                action: ActionView::ChooseHotkey(preset),
            },
        ),
{
    every_hotkey_is_offered_once(preset);
    let i = choose|i: int| 0 <= i < all_hotkeys().len() && all_hotkeys()[i] == preset;
    let entry = PartView::Choice {
        label: labels.text(preset),
        tone: Tone::Primary,
        action: ActionView::ChooseHotkey(preset),
    };
    assert(hotkey_option_parts(labels)[i] == entry);
    assert(hotkey_parts(state, labels, true)[i + 2] == entry);
}

/// Every entry of the list of hotkeys chooses the hotkey whose words it bears.
pub proof fn no_entry_chooses_another_hotkey(labels: HotkeyLabels, i: int)
    requires
        0 <= i < hotkey_option_parts(labels).len(),
    ensures
        hotkey_option_parts(labels)[i] matches PartView::Choice {
            label,
            action: ActionView::ChooseHotkey(preset),
            ..
        } && label == labels.text(preset),
        hotkey_option_parts(labels)[i] matches PartView::Choice { tone, .. } && tone
            == Tone::Primary,
{
}

/// The hotkey section names the hotkey at hand in both states, offers the list
/// exactly while it is open, and says what to do exactly where the hotkey is not
/// listened for, with the way to do it.
pub proof fn the_hotkey_section_names_the_hotkey(
    preset: HotkeySetting,
    labels: HotkeyLabels,
    open: bool,
)
    ensures
        ({
            let fine = hotkey_parts(HotkeyState::Active(preset), labels, open);
            let failed = hotkey_parts(HotkeyState::Failed(preset), labels, open);
            &&& fine.len() == if open {
                7
            } else {
                2nat
            }
            &&& fine[0] == PartView::Label("Hotkey"@)
            &&& fine[1] == (PartView::Dropdown {
                label: labels.text(preset),
                tone: Tone::Primary,
                action: ActionView::ToggleHotkeys,
            })
            &&& failed.len() == fine.len() + 2
            &&& failed.take(fine.len() as int) == fine
            &&& failed[fine.len() as int] == (PartView::Line {
                text: "Hotkey inactive — Vuho can't listen for "@ + labels.text(preset)
                    + ". Re-grant Accessibility, then relaunch."@,
                tone: Tone::Failure,
            })
            &&& failed[fine.len() as int + 1] == (PartView::Button {
                label: "Relaunch Vuho"@,
                fill: Fill::Confirm,
                action: ActionView::Relaunch,
            })
        }),
        preset_of(HotkeyState::Active(preset)) == preset,
        preset_of(HotkeyState::Failed(preset)) == preset,
{
    let fine = hotkey_parts(HotkeyState::Active(preset), labels, open);
    let failed = hotkey_parts(HotkeyState::Failed(preset), labels, open);
    assert(failed.take(fine.len() as int) =~= fine);
}

/// A hotkey that was chosen is the one that is listened for, or the one that is
/// not, as the listener said; the user is asked for the permission exactly where
/// it is not.
pub proof fn a_chosen_hotkey_is_the_one_at_hand(preset: HotkeySetting, started: bool)
    ensures
        rebound(preset, true) == (HotkeyChange {
            state: Some(HotkeyState::Active(preset)),
            prompt_accessibility: false,
        }),
        rebound(preset, false) == (HotkeyChange {
            state: Some(HotkeyState::Failed(preset)),
            prompt_accessibility: true,
        }),
        rebound(preset, started).state is Some,
{
}

/// A microphone that was chosen is connected exactly if it is among the devices,
/// and stays the chosen one by name even if it is not; without a choice the
/// system's default is used.
pub proof fn a_chosen_microphone_is_never_forgotten(name: Seq<char>, devices: Seq<Seq<char>>)
    ensures
        mic_display_of(None, devices) is SystemDefault,
        devices.contains(name) ==> mic_display_of(Some(name), devices)
            == MicDisplayView::Connected(name),
        !devices.contains(name) ==> mic_display_of(Some(name), devices) == MicDisplayView::Missing(
            name,
        ),
        mic_words(mic_display_of(Some(name), devices)).0 == name,
        mic_words(mic_display_of(None, devices)) == ("System Default"@, Tone::Primary),
        mic_words(mic_display_of(Some(name), devices)).1 == if devices.contains(name) {
            Tone::Primary
        } else {
            Tone::Warning
        },
{
}

/// The list of microphones offers the system's default first and then each device
/// by its name, in order; each entry chooses what it names.
pub proof fn every_microphone_can_be_chosen_by_its_name(devices: Seq<Seq<char>>, i: int)
    requires
        0 <= i < devices.len(),
    ensures
        device_parts(devices).len() == devices.len() + 1,
        device_parts(devices)[0] == (PartView::Choice {
            label: "System Default"@,
            tone: Tone::Primary,
            action: ActionView::ChooseMicrophone(None),
        }),
        device_parts(devices)[i + 1] == (PartView::Choice {
            label: devices[i],
            tone: Tone::Primary,
            action: ActionView::ChooseMicrophone(Some(devices[i])),
        }),
{
}

/// The microphone section names the chosen microphone, says that the default is
/// used exactly while the chosen one is away, and offers the list exactly while it
/// is open: the devices, and after them the chosen one where it is away.
pub proof fn the_microphone_section_says_what_is_used(
    chosen: Option<Seq<char>>,
    devices: Seq<Seq<char>>,
    open: bool,
)
    ensures
        ({
            let parts = mic_parts(chosen, devices, open);
            let away = chosen is Some && !devices.contains(chosen->Some_0);
            let note = seq![
                PartView::Line {
                    text: "Not connected — using System Default until it returns."@,
                    tone: Tone::Warning,
                },
            ];
            let kept = seq![
                PartView::Choice {
                    label: chosen->Some_0,
                    tone: Tone::Disabled,
                    action: ActionView::ChooseMicrophone(Some(chosen->Some_0)),
                },
            ];
            &&& parts[0] == PartView::Label("Microphone"@)
            &&& parts[1] matches PartView::Dropdown { label, tone, action } && label == (
            if chosen is Some {
                chosen->Some_0
            } else {
                "System Default"@
            }) && tone == (if away {
                Tone::Warning
            } else {
                Tone::Primary
            }) && action is ToggleMicrophones
            &&& !away && !open ==> parts.len() == 2
            &&& away && !open ==> parts.skip(2) == note
            &&& !away && open ==> parts.skip(2) == device_parts(devices)
            &&& away && open ==> parts.skip(2) == note + device_parts(devices) + kept
        }),
{
    let parts = mic_parts(chosen, devices, open);
    let away = chosen is Some && !devices.contains(chosen->Some_0);
    let note = seq![
        PartView::Line {
            text: "Not connected — using System Default until it returns."@,
            tone: Tone::Warning,
        },
    ];
    let kept = seq![mic_choice(chosen->Some_0, Tone::Disabled)];
    if away && !open {
        assert(parts.skip(2) =~= note);
    }
    if !away && open {
        assert(parts.skip(2) =~= device_parts(devices));
    }
    if away && open {
        assert(parts.skip(2) =~= note + device_parts(devices) + kept);
    }
}

/// What a permission's row is like follows how the permission stands, except that
/// accessibility that was granted too late for the hotkey asks for a relaunch.
pub proof fn a_row_is_like_its_permission(access: Access, is_accessibility: bool, failed: bool)
    ensures
        row_kind_of(access, is_accessibility, failed) is Promptable <==> access is Promptable,
        row_kind_of(access, is_accessibility, failed) is Denied <==> access is Denied,
        row_kind_of(access, is_accessibility, failed) is GrantedNeedsRelaunch <==> access is Granted
            && is_accessibility && failed,
        row_kind_of(access, is_accessibility, failed) is Granted <==> access is Granted && !(
        is_accessibility && failed),
{
}

/// A permission stands as its first entry on the list of missing ones says, and is
/// granted exactly if it has none.
pub proof fn a_permission_not_listed_is_granted(
    missing: Seq<(Permission, Access)>,
    permission: Permission,
    i: int,
)
    ensures
        (forall|j: int| 0 <= j < missing.len() ==> (#[trigger] missing[j]).0 != permission)
            ==> listed_access(missing, permission) is Granted,
        0 <= i < missing.len() && missing[i].0 == permission && (forall|j: int|
            0 <= j < i ==> (#[trigger] missing[j]).0 != permission) ==> listed_access(
            missing,
            permission,
        ) == missing[i].1,
    decreases missing.len(),
{
    if missing.len() > 0 && missing[0].0 != permission {
        let rest = missing.drop_first();
        a_permission_not_listed_is_granted(rest, permission, i - 1);
        if forall|j: int| 0 <= j < missing.len() ==> (#[trigger] missing[j]).0 != permission {
            assert forall|j: int| 0 <= j < rest.len() implies (#[trigger] rest[j]).0
                != permission by {
                assert(rest[j] == missing[j + 1]);
            }
        }
        if 0 <= i < missing.len() && missing[i].0 == permission && (forall|j: int|
            0 <= j < i ==> (#[trigger] missing[j]).0 != permission) {
            assert(i > 0);
            assert(rest[i - 1] == missing[i]);
            assert forall|j: int| 0 <= j < i - 1 implies (#[trigger] rest[j]).0 != permission by {
                assert(rest[j] == missing[j + 1]);
            }
        }
    }
}

/// A permission's row names the permission and what it is for, and ends in what
/// helps with it: its own prompt where that still works, its own place in System
/// Settings where it does not, a relaunch where it was granted too late, and
/// nothing where it is granted.
pub proof fn a_row_offers_what_helps_with_its_permission(
    permission: Permission,
    access: Access,
    hotkey_failed: bool,
)
    ensures
        ({
            let parts = permission_parts(permission, access, hotkey_failed);
            &&& parts[0] == PartView::Name(label_of(permission))
            &&& parts[1] == (PartView::Line {
                text: description_of(permission),
                tone: Tone::Tertiary,
            })
            &&& access is Promptable ==> parts.last() == (PartView::Button {
                label: "Allow "@ + label_of(permission),
                fill: Fill::Accent,
                action: ActionView::Request(permission),
            })
            &&& access is Denied ==> parts[parts.len() - 2] == (PartView::Line {
                text: "Access denied"@,
                tone: Tone::Failure,
            }) && parts.last() == (PartView::Button {
                label: "Open System Settings"@,
                fill: Fill::Accent,
                action: ActionView::OpenSystemSettings(permission),
            })
            &&& access is Granted && permission is Accessibility && hotkey_failed ==> parts.len()
                == 4 && parts[2] == (PartView::Line {
                text: "Granted — relaunch required"@,
                tone: Tone::Warning,
            }) && parts.last() == (PartView::Button {
                label: "Relaunch Vuho"@,
                fill: Fill::Confirm,
                action: ActionView::Relaunch,
            })
            &&& access is Granted && !(permission is Accessibility && hotkey_failed) ==> parts.len()
                == 3 && parts.last() == (PartView::Line {
                text: "✓ Granted"@,
                tone: Tone::Success,
            })
            &&& !(access is Granted) ==> parts.len() == 2 + (if permission is Accessibility {
                1int
            } else {
                0
            }) + (if access is Denied {
                2int
            } else {
                1
            })
            &&& (parts[2] == (PartView::Line {
                text: "Vuho must be relaunched after granting."@,
                tone: Tone::Tertiary,
            })) <==> permission is Accessibility && !(access is Granted)
        }),
{
    reveal_strlit("Vuho must be relaunched after granting.");
    reveal_strlit("Access denied");
    reveal_strlit("✓ Granted");
    reveal_strlit("Granted — relaunch required");
}

/// The permissions section has a row for every permission, in order, as long as
/// one is missing or the launch was blocked, and says that all is well otherwise.
pub proof fn every_permission_has_a_row_while_one_is_missing(
    missing: Seq<(Permission, Access)>,
    launch_blocked: bool,
    hotkey_failed: bool,
)
    ensures
        ({
            let parts = permissions_parts(missing, launch_blocked, hotkey_failed);
            let rows = permission_parts(
                Permission::Accessibility,
                listed_access(missing, Permission::Accessibility),
                hotkey_failed,
            ) + permission_parts(
                Permission::InputMonitoring,
                listed_access(missing, Permission::InputMonitoring),
                hotkey_failed,
            ) + permission_parts(
                Permission::Microphone,
                listed_access(missing, Permission::Microphone),
                hotkey_failed,
            );
            &&& parts[0] == PartView::Label("Permissions"@)
            &&& missing.len() > 0 ==> parts.skip(1) == rows
            &&& missing.len() == 0 && !launch_blocked ==> parts.skip(1) == seq![
                PartView::Line { text: "✓"@, tone: Tone::Success },
                PartView::Line { text: "All permissions granted"@, tone: Tone::Secondary },
            ]
            &&& missing.len() == 0 && launch_blocked ==> parts.skip(1) == rows + seq![
                PartView::Line {
                    text: "All permissions granted — relaunch Vuho to finish setup."@,
                    tone: Tone::Primary,
                },
                PartView::Button {
                    label: "Relaunch Vuho"@,
                    fill: Fill::Confirm,
                    action: ActionView::Relaunch,
                },
            ]
        }),
{
    reveal_with_fuel(permission_list_parts, 4);
    let all = all_permissions();
    assert(all.drop_last().drop_last().drop_last() =~= Seq::<Permission>::empty());
    let parts = permissions_parts(missing, launch_blocked, hotkey_failed);
    let rows = permission_list_parts(all, missing, hotkey_failed);
    if missing.len() > 0 {
        assert(parts.skip(1) =~= rows);
    } else if launch_blocked {
        assert(parts.skip(1) =~= rows + parts.skip(1 + rows.len() as int));
    } else {
        assert(parts.skip(1).len() == 2);
    }
}

/// The settings tab shows its sections in this order: the warning exactly where
/// the settings could not be read, in the words of the reason; the models exactly
/// once they are known; and always the permissions, the microphone and the hotkey,
/// each list open exactly if the tab has it open.
pub proof fn the_tab_shows_its_sections_in_order(
    tab: SettingsTab,
    status: StatusView,
    inputs: SettingsInputs,
)
    ensures
        ({
            let sections = tab_sections(tab, status, inputs);
            let n = sections.len() as int;
            let warned = status.settings_load_warning is Some;
            let known = status.models.len() > 0;
            &&& n == 3 + (if warned {
                1int
            } else {
                0
            }) + (if known {
                1int
            } else {
                0
            })
            &&& warned ==> sections[0].kind is Warning && sections[0].parts == seq![
                PartView::Line {
                    text: "Settings could not be read — defaults are in use."@,
                    tone: Tone::Warning,
                },
                PartView::Line {
                    text: status.settings_load_warning->Some_0,
                    tone: Tone::Secondary,
                },
            ]
            &&& known ==> sections[n - 4].kind is SpeechModel && sections[n - 4].parts
                == speech_model_parts(
                status.models,
                status.engine,
                status.recording,
                tab.model_open,
                inputs.selected@,
                languages_text(
                    backend_of(inputs.manifest, inputs.selected@),
                    text_views(inputs.mapped_languages@),
                    text_views(inputs.prompted_languages@),
                ),
                inputs.manifest,
            )
            &&& sections[n - 3].kind is Permissions && sections[n - 3].parts == permissions_parts(
                status.permissions_missing,
                status.launch_blocked,
                status.hotkey is Failed,
            )
            &&& sections[n - 2].kind is Microphone && sections[n - 2].parts == mic_parts(
                match inputs.microphone {
                    Some(name) => Some(name@),
                    None => None,
                },
                text_views(tab.devices@),
                tab.mic_open,
            )
            &&& sections[n - 1].kind is Hotkey && sections[n - 1].parts == hotkey_parts(
                status.hotkey,
                inputs.labels,
                tab.hotkey_open,
            )
        }),
{
}

/// The lists of the settings tab.
pub ghost enum TabList {
    Models,
    Microphones,
    Hotkeys,
}

/// Whether a list is open.
pub open spec fn is_open(tab: SettingsTab, list: TabList) -> bool {
    match list {
        TabList::Models => tab.model_open,
        TabList::Microphones => tab.mic_open,
        TabList::Hotkeys => tab.hotkey_open,
    }
}

/// The tab after a click on the head of a list.
pub open spec fn toggled(tab: SettingsTab, list: TabList) -> SettingsTab {
    SettingsTab {
        devices: tab.devices,
        model_open: list == TabList::Models && !tab.model_open,
        mic_open: list == TabList::Microphones && !tab.mic_open,
        hotkey_open: list == TabList::Hotkeys && !tab.hotkey_open,
    }
}

/// The tab after an entry of a list was chosen.
pub open spec fn chosen_from(tab: SettingsTab, list: TabList) -> SettingsTab {
    SettingsTab {
        devices: tab.devices,
        model_open: tab.model_open && list != TabList::Models,
        mic_open: tab.mic_open && list != TabList::Microphones,
        hotkey_open: tab.hotkey_open && list != TabList::Hotkeys,
    }
}

/// A click on the head of a list opens it, or closes it, and closes every other;
/// choosing an entry closes the list and touches no other. The devices stay as
/// they were listed.
pub proof fn one_list_is_open_at_a_time(tab: SettingsTab, list: TabList, other: TabList)
    requires
        other != list,
    ensures
        is_open(toggled(tab, list), list) == !is_open(tab, list),
        !is_open(toggled(tab, list), other),
        toggled(tab, list).devices == tab.devices,
        toggled(tab, list).wf(),
        !is_open(chosen_from(tab, list), list),
        is_open(chosen_from(tab, list), other) == is_open(tab, other),
        chosen_from(tab, list).devices == tab.devices,
{
}

/// The views of sections keep them one for one, in order, with all their parts.
pub proof fn views_of_sections_keep_their_order(sections: Seq<Section>, i: int)
    requires
        0 <= i < sections.len(),
    ensures
        section_views(sections).len() == sections.len(),
        section_views(sections)[i].kind == sections[i].kind,
        section_views(sections)[i].parts == part_views(sections[i].parts@),
{
}

/// The view of how the chosen microphone stands keeps its name.
pub proof fn views_of_microphones_keep_everything(display: MicDisplay)
    ensures
        match display {
            MicDisplay::SystemDefault => display@ is SystemDefault,
            MicDisplay::Connected(name) => display@ == MicDisplayView::Connected(name@),
            MicDisplay::Missing(name) => display@ == MicDisplayView::Missing(name@),
        },
{
}

/// The tab with every list closed.
pub open spec fn all_closed(tab: SettingsTab) -> SettingsTab {
    SettingsTab { mic_open: false, hotkey_open: false, model_open: false, ..tab }
}

/// Closing the lists closes each of them and forgets no device.
pub proof fn closing_the_lists_closes_each(tab: SettingsTab, list: TabList)
    ensures
        !is_open(all_closed(tab), list),
        all_closed(tab).devices == tab.devices,
{
}

} // verus!
