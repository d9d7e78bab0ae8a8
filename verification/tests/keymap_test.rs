use deskserver::keymap::{
    macos_flags_to_modifiers, macos_keycode_to_neutral, neutral_to_macos_keycode,
    neutral_to_windows_vk, windows_mods_to_modifiers, windows_vk_to_neutral, NK_A, NK_ALT_LEFT,
    NK_CTRL_LEFT, NK_META_LEFT, NK_META_RIGHT, NK_SHIFT_LEFT, NK_SPACE,
};
use deskserver::protocol::{MOD_CTRL, MOD_SHIFT};

#[test]
fn neutral_a_roundtrips_macos() {
    let neutral = macos_keycode_to_neutral(0x00);
    assert_eq!(neutral, Some(NK_A));
    let back = neutral_to_macos_keycode(NK_A);
    assert_eq!(back, Some(0x00));
}

#[test]
fn neutral_a_roundtrips_windows() {
    let neutral = windows_vk_to_neutral(0x41);
    assert_eq!(neutral, Some(NK_A));
    let back = neutral_to_windows_vk(NK_A);
    assert_eq!(back, Some(0x41));
}

#[test]
fn cmd_ctrl_swap_mac_to_win() {
    let neutral = macos_keycode_to_neutral(0x37); // Left Cmd on macOS
    assert_eq!(neutral, Some(NK_CTRL_LEFT));
    let vk = neutral_to_windows_vk(NK_CTRL_LEFT);
    assert_eq!(vk, Some(0xA2)); // VK_LCONTROL
}

#[test]
fn cmd_ctrl_swap_win_to_mac() {
    let neutral = windows_vk_to_neutral(0xA2); // VK_LCONTROL
    assert_eq!(neutral, Some(NK_CTRL_LEFT));
    let mac_kc = neutral_to_macos_keycode(NK_CTRL_LEFT);
    assert_eq!(mac_kc, Some(0x37)); // Left Cmd on macOS
}

#[test]
fn modifier_bits_from_macos() {
    let mods = macos_flags_to_modifiers(0x120108); // Cmd+Shift flags
    assert_eq!(mods & MOD_CTRL, MOD_CTRL);
    assert_eq!(mods & MOD_SHIFT, MOD_SHIFT);
}

#[test]
fn modifier_bits_from_windows() {
    let mods = windows_mods_to_modifiers(true, false, false, false);
    assert_eq!(mods & MOD_CTRL, MOD_CTRL);
}

#[test]
fn space_key_maps() {
    let neutral = macos_keycode_to_neutral(0x31);
    assert_eq!(neutral, Some(NK_SPACE));
    let vk = neutral_to_windows_vk(NK_SPACE);
    assert_eq!(vk, Some(0x20));
}

#[test]
fn every_neutral_key_roundtrips_on_both_platforms() {
    let mut mapped = 0;
    for nk in 0u32..200 {
        match (neutral_to_macos_keycode(nk), neutral_to_windows_vk(nk)) {
            (Some(kc), Some(vk)) => {
                assert_eq!(macos_keycode_to_neutral(kc), Some(nk));
                assert_eq!(windows_vk_to_neutral(vk), Some(nk));
                mapped += 1;
            }
            (None, None) => {}
            other => panic!("tables disagree on {}: {:?}", nk, other),
        }
    }
    assert_eq!(mapped, 82);
}

#[test]
fn unknown_codes_map_to_none() {
    assert_eq!(macos_keycode_to_neutral(0xFF), None);
    assert_eq!(windows_vk_to_neutral(0xFF), None);
    assert_eq!(neutral_to_macos_keycode(0), None);
    assert_eq!(neutral_to_windows_vk(27), None);
}

#[test]
fn windows_generic_modifiers_read_as_left_keys() {
    assert_eq!(windows_vk_to_neutral(0x10), Some(NK_SHIFT_LEFT));
    assert_eq!(windows_vk_to_neutral(0x11), Some(NK_CTRL_LEFT));
    assert_eq!(windows_vk_to_neutral(0x12), Some(NK_ALT_LEFT));
    assert_eq!(neutral_to_windows_vk(NK_SHIFT_LEFT), Some(0xA0));
}

#[test]
fn mac_control_is_windows_key() {
    assert_eq!(macos_keycode_to_neutral(0x3B), Some(NK_META_LEFT));
    assert_eq!(neutral_to_windows_vk(NK_META_LEFT), Some(0x5B));
    assert_eq!(macos_keycode_to_neutral(0x3E), Some(NK_META_RIGHT));
    assert_eq!(neutral_to_windows_vk(NK_META_RIGHT), Some(0x5C));
}

#[test]
fn modifier_bitfields_exact() {
    // Shift | Control | Option | Command on macOS: Control is META, Command is CTRL.
    assert_eq!(macos_flags_to_modifiers(0x020000), 0x01);
    assert_eq!(macos_flags_to_modifiers(0x040000), 0x08);
    assert_eq!(macos_flags_to_modifiers(0x080000), 0x04);
    assert_eq!(macos_flags_to_modifiers(0x100000), 0x02);
    assert_eq!(macos_flags_to_modifiers(0x1E0000), 0x0F);
    assert_eq!(macos_flags_to_modifiers(0x010000), 0x00); // caps lock is no modifier
    assert_eq!(windows_mods_to_modifiers(false, true, false, false), 0x01);
    assert_eq!(windows_mods_to_modifiers(false, false, true, false), 0x04);
    assert_eq!(windows_mods_to_modifiers(false, false, false, true), 0x08);
    assert_eq!(windows_mods_to_modifiers(true, true, true, true), 0x0F);
    assert_eq!(windows_mods_to_modifiers(false, false, false, false), 0x00);
}
