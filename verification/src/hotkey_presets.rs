//! The hotkeys that can start and stop dictation.

use vstd::prelude::*;

verus! {

/// The key code of the space bar.
pub const KEYCODE_SPACE: u16 = 49;

/// The key code of the D key.
pub const KEYCODE_D: u16 = 2;

/// A hotkey that the user can choose.
#[derive(Debug, Clone, Copy, PartialEq, Eq, Structural)]
pub enum HotkeySetting {
    CapsLock,
    OptionSpace,
    ControlOptionSpace,
    CommandShiftSpace,
    ControlOptionD,
}

impl HotkeySetting {
    /// Every hotkey that can be chosen, in the order in which they are shown.
    pub const ALL: [HotkeySetting; 5] = [
        HotkeySetting::CapsLock,
        HotkeySetting::OptionSpace,
        HotkeySetting::ControlOptionSpace,
        HotkeySetting::CommandShiftSpace,
        HotkeySetting::ControlOptionD,
    ];
}

/// Every hotkey that can be chosen, in the order in which they are shown.
pub open spec fn all_hotkeys() -> Seq<HotkeySetting> {
    seq![
        HotkeySetting::CapsLock,
        HotkeySetting::OptionSpace,
        HotkeySetting::ControlOptionSpace,
        HotkeySetting::CommandShiftSpace,
        HotkeySetting::ControlOptionD,
    ]
}

/// The words for each hotkey, as the settings store gives them.
#[derive(Debug, PartialEq, Eq)]
pub struct HotkeyLabels {
    pub caps_lock: String,
    pub option_space: String,
    pub control_option_space: String,
    pub command_shift_space: String,
    pub control_option_d: String,
}

impl HotkeyLabels {
    /// The words for a hotkey.
    pub open spec fn text(&self, preset: HotkeySetting) -> Seq<char> {
        match preset {
            HotkeySetting::CapsLock => self.caps_lock@,
            HotkeySetting::OptionSpace => self.option_space@,
            HotkeySetting::ControlOptionSpace => self.control_option_space@,
            HotkeySetting::CommandShiftSpace => self.command_shift_space@,
            HotkeySetting::ControlOptionD => self.control_option_d@,
        }
    }

    /// The words for a hotkey.
    pub fn label(&self, preset: HotkeySetting) -> (r: &str)
        ensures
            r@ == self.text(preset),
    {
        match preset {
            HotkeySetting::CapsLock => self.caps_lock.as_str(),
            HotkeySetting::OptionSpace => self.option_space.as_str(),
            HotkeySetting::ControlOptionSpace => self.control_option_space.as_str(),
            HotkeySetting::CommandShiftSpace => self.command_shift_space.as_str(),
            HotkeySetting::ControlOptionD => self.control_option_d.as_str(),
        }
    }
}

/// The modifier keys of a chord.
#[derive(Debug, Clone, Copy, PartialEq, Eq, Structural)]
pub struct Modifiers {
    pub control: bool,
    pub option: bool,
    pub command: bool,
    pub shift: bool,
}

/// What the keyboard listener watches for.
#[derive(Debug, Clone, Copy, PartialEq, Eq, Structural)]
pub enum HotkeyConfig {
    CapsLock,
    Chord { flags: Modifiers, keycode: u16 },
}

/// What the keyboard listener watches for when a hotkey is chosen.
pub open spec fn config_of(preset: HotkeySetting) -> HotkeyConfig {
    match preset {
        HotkeySetting::CapsLock => HotkeyConfig::CapsLock,
        HotkeySetting::OptionSpace => HotkeyConfig::Chord {
            flags: Modifiers { control: false, option: true, command: false, shift: false },
            keycode: 49,
        },
        HotkeySetting::ControlOptionSpace => HotkeyConfig::Chord {
            flags: Modifiers { control: true, option: true, command: false, shift: false },
            keycode: 49,
        },
        HotkeySetting::CommandShiftSpace => HotkeyConfig::Chord {
            flags: Modifiers { control: false, option: false, command: true, shift: true },
            keycode: 49,
        },
        HotkeySetting::ControlOptionD => HotkeyConfig::Chord {
            flags: Modifiers { control: true, option: true, command: false, shift: false },
            keycode: 2,
        },
    }
}

/// What the keyboard listener watches for when a hotkey is chosen.
pub fn to_hotkey_config(preset: HotkeySetting) -> (r: HotkeyConfig)
    ensures
        r == config_of(preset),
{
    let none = Modifiers { control: false, option: false, command: false, shift: false };
    match preset {
        HotkeySetting::CapsLock => HotkeyConfig::CapsLock,
        HotkeySetting::OptionSpace => HotkeyConfig::Chord {
            flags: Modifiers { option: true, ..none },
            keycode: KEYCODE_SPACE,
        },
        HotkeySetting::ControlOptionSpace => HotkeyConfig::Chord {
            flags: Modifiers { control: true, option: true, ..none },
            keycode: KEYCODE_SPACE,
        },
        HotkeySetting::CommandShiftSpace => HotkeyConfig::Chord {
            flags: Modifiers { command: true, shift: true, ..none },
            keycode: KEYCODE_SPACE,
        },
        HotkeySetting::ControlOptionD => HotkeyConfig::Chord {
            flags: Modifiers { control: true, option: true, ..none },
            keycode: KEYCODE_D,
        },
    }
}

/// Two different hotkeys are never the same keys.
pub proof fn hotkeys_are_different_keys(a: HotkeySetting, b: HotkeySetting)
    requires
        config_of(a) == config_of(b),
    ensures
        a == b,
{
}

/// Every hotkey can be chosen, and each is offered once.
pub proof fn every_hotkey_is_offered_once(preset: HotkeySetting)
    ensures
        all_hotkeys().contains(preset),
        all_hotkeys().no_duplicates(),
        all_hotkeys().len() == 5,
{
    let all = all_hotkeys();
    assert(all[0] == HotkeySetting::CapsLock);
    assert(all[1] == HotkeySetting::OptionSpace);
    assert(all[2] == HotkeySetting::ControlOptionSpace);
    assert(all[3] == HotkeySetting::CommandShiftSpace);
    assert(all[4] == HotkeySetting::ControlOptionD);
}

/// Hotkeys are offered in the order in which they are listed.
pub proof fn hotkeys_are_offered_in_order()
    ensures
        all_hotkeys()[0] is CapsLock,
        all_hotkeys()[1] is OptionSpace,
        all_hotkeys()[2] is ControlOptionSpace,
        all_hotkeys()[3] is CommandShiftSpace,
        all_hotkeys()[4] is ControlOptionD,
{
}

/// The listener watches for the very keys that a hotkey is named after: each chord
/// for its own modifiers and no others, and for the space bar or the D key.
pub proof fn the_listener_watches_the_keys_of_the_name(preset: HotkeySetting)
    ensures
        config_of(preset) is CapsLock <==> preset is CapsLock,
        config_of(preset) matches HotkeyConfig::Chord { flags, keycode } ==> {
            &&& flags.control <==> preset is ControlOptionSpace || preset is ControlOptionD
            &&& flags.option <==> preset is OptionSpace || preset is ControlOptionSpace
                || preset is ControlOptionD
            &&& flags.command <==> preset is CommandShiftSpace
            &&& flags.shift <==> preset is CommandShiftSpace
            &&& keycode == if preset is ControlOptionD {
                2
            } else {
                49u16
            }
        },
{
}

/// Each hotkey goes by the words that were given for it.
pub proof fn hotkeys_go_by_their_own_words(labels: HotkeyLabels)
    ensures
        labels.text(HotkeySetting::CapsLock) == labels.caps_lock@,
        labels.text(HotkeySetting::OptionSpace) == labels.option_space@,
        labels.text(HotkeySetting::ControlOptionSpace) == labels.control_option_space@,
        labels.text(HotkeySetting::CommandShiftSpace) == labels.command_shift_space@,
        labels.text(HotkeySetting::ControlOptionD) == labels.control_option_d@,
{
}

} // verus!
