use vuho_ui::hotkey_presets::{
    to_hotkey_config, HotkeyConfig, HotkeySetting, Modifiers, KEYCODE_D, KEYCODE_SPACE,
};

const NONE: Modifiers = Modifiers {
    control: false,
    option: false,
    command: false,
    shift: false,
};

/// The flags and the key of a chord.
fn expect_chord(config: &HotkeyConfig) -> (Modifiers, u16) {
    match *config {
        HotkeyConfig::Chord { flags, keycode } => (flags, keycode),
        HotkeyConfig::CapsLock => panic!("expected Chord, got CapsLock"),
    }
}

#[test]
fn caps_lock_maps_to_caps_lock() {
    assert!(matches!(
        to_hotkey_config(HotkeySetting::CapsLock),
        HotkeyConfig::CapsLock
    ));
}

#[test]
fn option_space_maps_to_alternate_space_chord() {
    let (flags, keycode) = expect_chord(&to_hotkey_config(HotkeySetting::OptionSpace));
    assert_eq!(flags, Modifiers { option: true, ..NONE });
    assert_eq!(keycode, KEYCODE_SPACE);
}

#[test]
fn control_option_space_maps_to_combined_chord() {
    let (flags, keycode) = expect_chord(&to_hotkey_config(HotkeySetting::ControlOptionSpace));
    assert_eq!(flags, Modifiers { control: true, option: true, ..NONE });
    assert_eq!(keycode, KEYCODE_SPACE);
}

#[test]
fn command_shift_space_maps_to_combined_chord() {
    let (flags, keycode) = expect_chord(&to_hotkey_config(HotkeySetting::CommandShiftSpace));
    assert_eq!(flags, Modifiers { command: true, shift: true, ..NONE });
    assert_eq!(keycode, KEYCODE_SPACE);
}

#[test]
fn control_option_d_maps_to_combined_chord() {
    let (flags, keycode) = expect_chord(&to_hotkey_config(HotkeySetting::ControlOptionD));
    assert_eq!(flags, Modifiers { control: true, option: true, ..NONE });
    assert_eq!(keycode, KEYCODE_D);
}

#[test]
fn every_preset_is_covered() {
    assert_eq!(HotkeySetting::ALL.len(), 5);
    for preset in HotkeySetting::ALL {
        let _ = to_hotkey_config(preset);
    }
}

#[test]
fn key_codes_are_exact() {
    assert_eq!(KEYCODE_SPACE, 49);
    assert_eq!(KEYCODE_D, 2);
}

#[test]
fn no_two_presets_are_the_same_keys() {
    for a in HotkeySetting::ALL {
        for b in HotkeySetting::ALL {
            assert_eq!(a == b, to_hotkey_config(a) == to_hotkey_config(b));
        }
    }
}
