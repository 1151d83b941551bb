//! The settings window: there is at most one, and it shows the microphone and the
//! hotkey.

use vstd::prelude::*;

use crate::app_status::text_view;
use crate::hotkey_presets::{HotkeyLabels, HotkeySetting};
use crate::parts::{no_parts, part_views, push_part, push_parts, Action, ActionView, Part, PartView};
use crate::settings_tab::{device_options, device_parts, hotkey_option_parts, hotkey_options};
use crate::text::text_views;
use crate::theme::Tone;

verus! {

/// The one settings window, while there is one. `H` is a handle to a window.
#[derive(Debug)]
pub struct SettingsWindow<H> {
    pub handle: Option<H>,
}

impl<H> SettingsWindow<H> {
    /// No window yet.
    pub fn new() -> (r: Self)
        ensures
            r.handle is None,
    {
        SettingsWindow { handle: None }
    }

    /// Bring the window forward if it is still there, and open one if not.
    /// `activate` says whether the window it is given is still there; `create`
    /// opens one, if it can, and is used only where none is there. The result
    /// says whether there is a window now, so that the application has to come
    /// forward with it.
    pub fn open<A: FnOnce(&H) -> bool, C: FnOnce() -> Option<H>>(
        &mut self,
        activate: A,
        create: C,
    ) -> (r: bool)
        requires
            old(self).handle matches Some(h) ==> activate.requires((&h,)),
            old(self).handle matches Some(h) ==> (activate.ensures((&h,), false)
                ==> create.requires(())),
            old(self).handle is None ==> create.requires(()),
        ensures
            opened_by(*old(self), *final(self), activate, create, r),
            r ==> final(self).handle is Some,
    {
        let alive = match &self.handle {
            Some(handle) => activate(handle),
            None => false,
        };
        if alive {
            return true;
        }
        match create() {
            Some(handle) => {
                let opened = Some(handle);
                self.handle = opened;
                true
            },
            None => false,
        }
    }

    /// The window was closed: the next time, one is opened afresh.
    pub fn closed(&mut self)
        ensures
            final(self).handle is None,
    {
        self.handle = None;
    }
}

/// Whether asking for the window led from `before` to `after`, with `shown` as
/// the answer: either the window was still there, or the attempt to open one
/// decided.
pub open spec fn opened_by<H, A: FnOnce(&H) -> bool, C: FnOnce() -> Option<H>>(
    before: SettingsWindow<H>,
    after: SettingsWindow<H>,
    activate: A,
    create: C,
    shown: bool,
) -> bool {
    let kept = before.handle matches Some(h) && activate.ensures((&h,), true) && after == before
        && shown;
    let gone = match before.handle {
        Some(h) => activate.ensures((&h,), false),
        None => true,
    };
    let fresh = gone && exists|made: Option<H>| #[trigger]
        create.ensures((), made) && shown == made is Some && after.handle == (if made is Some {
            made
        } else {
            before.handle
        });
    kept || fresh
}

/// The words for the chosen microphone.
pub open spec fn chosen_mic_text(chosen: Option<Seq<char>>) -> Seq<char> {
    match chosen {
        Some(name) => name,
        None => "System Default"@,
    }
}

/// The microphone, and the list to choose from where it is open.
pub open spec fn window_mic_parts(
    chosen: Option<Seq<char>>,
    devices: Seq<Seq<char>>,
    open: bool,
) -> Seq<PartView> {
    seq![
        PartView::Label("Microphone"@),
        PartView::Dropdown {
            label: chosen_mic_text(chosen),
            tone: Tone::Primary,
            action: ActionView::ToggleMicrophones,
        },
    ] + (if open {
        device_parts(devices)
    } else {
        Seq::empty()
    })
}

/// The microphone, and the list to choose from where it is open.
pub fn window_mic_row(chosen: &Option<String>, devices: &Vec<String>, open: bool) -> (r: Vec<Part>)
    ensures
        part_views(r@) == window_mic_parts(text_view(*chosen), text_views(devices@), open),
{
    let label = match chosen {
        Some(name) => name.clone(),
        None => "System Default".to_owned(),
    };
    let mut parts = no_parts();
    push_part(&mut parts, Part::Label("Microphone".to_owned()));
    push_part(
        &mut parts,
        Part::Dropdown { label, tone: Tone::Primary, action: Action::ToggleMicrophones },
    );
    if open {
        push_parts(&mut parts, device_options(devices));
    }
    parts
}

/// The hotkey, and the list to choose from where it is open.
pub open spec fn window_hotkey_parts(
    preset: HotkeySetting,
    labels: HotkeyLabels,
    open: bool,
) -> Seq<PartView> {
    seq![
        PartView::Label("Hotkey"@),
        PartView::Dropdown {
            label: labels.text(preset),
            tone: Tone::Primary,
            action: ActionView::ToggleHotkeys,
        },
    ] + (if open {
        hotkey_option_parts(labels)
    } else {
        Seq::empty()
    })
}

/// The hotkey, and the list to choose from where it is open.
pub fn window_hotkey_row(preset: HotkeySetting, labels: &HotkeyLabels, open: bool) -> (r: Vec<Part>)
    ensures
        part_views(r@) == window_hotkey_parts(preset, *labels, open),
{
    let mut parts = no_parts();
    push_part(&mut parts, Part::Label("Hotkey".to_owned()));
    push_part(
        &mut parts,
        Part::Dropdown {
            label: labels.label(preset).to_owned(),
            tone: Tone::Primary,
            action: Action::ToggleHotkeys,
        },
    );
    if open {
        push_parts(&mut parts, hotkey_options(labels));
    }
    parts
}

/// There is at most one settings window: one that is still there is kept and none
/// is opened; one that is gone, or was never there, gives way to the one that was
/// opened, if one was. The answer says whether there is a window to come forward
/// with.
pub proof fn there_is_at_most_one_window<H, A: FnOnce(&H) -> bool, C: FnOnce() -> Option<H>>(
    before: SettingsWindow<H>,
    after: SettingsWindow<H>,
    activate: A,
    create: C,
    shown: bool,
)
    requires
        opened_by(before, after, activate, create, shown),
    ensures
        shown ==> after.handle is Some,
        before.handle is None ==> exists|made: Option<H>| #[trigger]
            create.ensures((), made) && after.handle == made && shown == made is Some,
        before.handle matches Some(h) ==> {
            ||| activate.ensures((&h,), true) && after.handle == before.handle && shown
            ||| activate.ensures((&h,), false) && exists|made: Option<H>| #[trigger]
                create.ensures((), made) && shown == made is Some && (made is Some ==> after.handle
                    == made) && (made is None ==> after.handle == before.handle)
        },
{
}

/// The window names the chosen microphone, or the system's default where none is
/// chosen, and lists the devices exactly while the list is open.
pub proof fn the_window_names_the_microphone(
    chosen: Option<Seq<char>>,
    devices: Seq<Seq<char>>,
    open: bool,
)
    ensures
        ({
            let parts = window_mic_parts(chosen, devices, open);
            &&& parts[0] == PartView::Label("Microphone"@)
            &&& parts[1] == (PartView::Dropdown {
                label: if chosen is Some {
                    chosen->Some_0
                } else {
                    "System Default"@
                },
                tone: Tone::Primary,
                action: ActionView::ToggleMicrophones,
            })
            &&& open ==> parts.skip(2) == device_parts(devices)
            &&& !open ==> parts.len() == 2
        }),
{
    if open {
        assert(window_mic_parts(chosen, devices, open).skip(2) =~= device_parts(devices));
    }
}

/// The window names the chosen hotkey by its own words, and lists the hotkeys
/// exactly while the list is open.
pub proof fn the_window_names_the_hotkey(preset: HotkeySetting, labels: HotkeyLabels, open: bool)
    ensures
        ({
            let parts = window_hotkey_parts(preset, labels, open);
            &&& parts[0] == PartView::Label("Hotkey"@)
            &&& parts[1] == (PartView::Dropdown {
                label: labels.text(preset),
                tone: Tone::Primary,
                action: ActionView::ToggleHotkeys,
            })
            &&& open ==> parts.skip(2) == hotkey_option_parts(labels)
            &&& !open ==> parts.len() == 2
        }),
{
    if open {
        assert(window_hotkey_parts(preset, labels, open).skip(2) =~= hotkey_option_parts(labels));
    }
}

} // verus!
