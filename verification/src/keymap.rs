//! Neutral key identifiers and the tables between them and the platform
//! keycodes: macOS virtual keycodes and Windows virtual-key codes.
//!
//! The Cmd/Ctrl swap is part of the tables: macOS Command is the neutral CTRL
//! key (the primary shortcut modifier) and macOS Control is neutral META, while
//! Windows Ctrl is CTRL and the Windows key is META.
//!
//! One table, `key_codes`, gives each neutral key its macOS keycode and its
//! Windows virtual-key code. The sending direction of each platform reads it
//! directly and the reading direction is specified as its inverse, so all four
//! executable mappings are held to that single table.
use crate::protocol::{MOD_ALT, MOD_CTRL, MOD_META, MOD_SHIFT};
use vstd::prelude::*;

verus! {

// ── Neutral key identifiers ──────────────────────────────────────────

pub const NK_A: u32 = 1;
pub const NK_B: u32 = 2;
pub const NK_C: u32 = 3;
pub const NK_D: u32 = 4;
pub const NK_E: u32 = 5;
pub const NK_F: u32 = 6;
pub const NK_G: u32 = 7;
pub const NK_H: u32 = 8;
pub const NK_I: u32 = 9;
pub const NK_J: u32 = 10;
pub const NK_K: u32 = 11;
pub const NK_L: u32 = 12;
pub const NK_M: u32 = 13;
pub const NK_N: u32 = 14;
pub const NK_O: u32 = 15;
pub const NK_P: u32 = 16;
pub const NK_Q: u32 = 17;
pub const NK_R: u32 = 18;
pub const NK_S: u32 = 19;
pub const NK_T: u32 = 20;
pub const NK_U: u32 = 21;
pub const NK_V: u32 = 22;
pub const NK_W: u32 = 23;
pub const NK_X: u32 = 24;
pub const NK_Y: u32 = 25;
pub const NK_Z: u32 = 26;
pub const NK_0: u32 = 30;
pub const NK_1: u32 = 31;
pub const NK_2: u32 = 32;
pub const NK_3: u32 = 33;
pub const NK_4: u32 = 34;
pub const NK_5: u32 = 35;
pub const NK_6: u32 = 36;
pub const NK_7: u32 = 37;
pub const NK_8: u32 = 38;
pub const NK_9: u32 = 39;
pub const NK_F1: u32 = 50;
pub const NK_F2: u32 = 51;
pub const NK_F3: u32 = 52;
pub const NK_F4: u32 = 53;
pub const NK_F5: u32 = 54;
pub const NK_F6: u32 = 55;
pub const NK_F7: u32 = 56;
pub const NK_F8: u32 = 57;
pub const NK_F9: u32 = 58;
pub const NK_F10: u32 = 59;
pub const NK_F11: u32 = 60;
pub const NK_F12: u32 = 61;
pub const NK_RETURN: u32 = 70;
pub const NK_TAB: u32 = 71;
pub const NK_SPACE: u32 = 72;
pub const NK_BACKSPACE: u32 = 73;
pub const NK_ESCAPE: u32 = 74;
pub const NK_DELETE: u32 = 75;
pub const NK_UP: u32 = 80;
pub const NK_DOWN: u32 = 81;
pub const NK_LEFT: u32 = 82;
pub const NK_RIGHT: u32 = 83;
pub const NK_HOME: u32 = 84;
pub const NK_END: u32 = 85;
pub const NK_PAGE_UP: u32 = 86;
pub const NK_PAGE_DOWN: u32 = 87;
pub const NK_SHIFT_LEFT: u32 = 90;
pub const NK_SHIFT_RIGHT: u32 = 91;
pub const NK_CTRL_LEFT: u32 = 92;
pub const NK_CTRL_RIGHT: u32 = 93;
pub const NK_ALT_LEFT: u32 = 94;
pub const NK_ALT_RIGHT: u32 = 95;
pub const NK_META_LEFT: u32 = 96;
pub const NK_META_RIGHT: u32 = 97;
pub const NK_CAPS_LOCK: u32 = 100;
pub const NK_MINUS: u32 = 110;
pub const NK_EQUAL: u32 = 111;
pub const NK_LBRACKET: u32 = 112;
pub const NK_RBRACKET: u32 = 113;
pub const NK_BACKSLASH: u32 = 114;
pub const NK_SEMICOLON: u32 = 115;
pub const NK_QUOTE: u32 = 116;
pub const NK_GRAVE: u32 = 117;
pub const NK_COMMA: u32 = 118;
pub const NK_PERIOD: u32 = 119;
pub const NK_SLASH: u32 = 120;

// ── macOS event-flag masks (CGEventFlags) ────────────────────────────

pub const MAC_FLAG_CAPS_LOCK: u64 = 0x010000;
pub const MAC_FLAG_SHIFT: u64 = 0x020000;
pub const MAC_FLAG_CONTROL: u64 = 0x040000;
pub const MAC_FLAG_OPTION: u64 = 0x080000;
pub const MAC_FLAG_COMMAND: u64 = 0x100000;

// ── Windows non-lateralized modifier virtual keys ────────────────────

pub const VK_SHIFT: u32 = 0x10;
pub const VK_CONTROL: u32 = 0x11;
pub const VK_MENU: u32 = 0x12;

// ── The tables ───────────────────────────────────────────────────────

/// The key table: for each neutral key, the macOS keycode and the Windows
/// virtual-key code that stand for it.
pub open spec fn key_codes(nk: u32) -> Option<(u32, u32)> {
    match nk {
        NK_A => Some((0x00, 0x41)), NK_B => Some((0x0B, 0x42)),
        NK_C => Some((0x08, 0x43)), NK_D => Some((0x02, 0x44)),
        NK_E => Some((0x0E, 0x45)), NK_F => Some((0x03, 0x46)),
        NK_G => Some((0x05, 0x47)), NK_H => Some((0x04, 0x48)),
        NK_I => Some((0x22, 0x49)), NK_J => Some((0x26, 0x4A)),
        NK_K => Some((0x28, 0x4B)), NK_L => Some((0x25, 0x4C)),
        NK_M => Some((0x2E, 0x4D)), NK_N => Some((0x2D, 0x4E)),
        NK_O => Some((0x1F, 0x4F)), NK_P => Some((0x23, 0x50)),
        NK_Q => Some((0x0C, 0x51)), NK_R => Some((0x0F, 0x52)),
        NK_S => Some((0x01, 0x53)), NK_T => Some((0x11, 0x54)),
        NK_U => Some((0x20, 0x55)), NK_V => Some((0x09, 0x56)),
        NK_W => Some((0x0D, 0x57)), NK_X => Some((0x07, 0x58)),
        NK_Y => Some((0x10, 0x59)), NK_Z => Some((0x06, 0x5A)),
        NK_0 => Some((0x1D, 0x30)), NK_1 => Some((0x12, 0x31)),
        NK_2 => Some((0x13, 0x32)), NK_3 => Some((0x14, 0x33)),
        NK_4 => Some((0x15, 0x34)), NK_5 => Some((0x17, 0x35)),
        NK_6 => Some((0x16, 0x36)), NK_7 => Some((0x1A, 0x37)),
        NK_8 => Some((0x1C, 0x38)), NK_9 => Some((0x19, 0x39)),
        NK_F1 => Some((0x7A, 0x70)), NK_F2 => Some((0x78, 0x71)),
        NK_F3 => Some((0x63, 0x72)), NK_F4 => Some((0x76, 0x73)),
        NK_F5 => Some((0x60, 0x74)), NK_F6 => Some((0x61, 0x75)),
        NK_F7 => Some((0x62, 0x76)), NK_F8 => Some((0x64, 0x77)),
        NK_F9 => Some((0x65, 0x78)), NK_F10 => Some((0x6D, 0x79)),
        NK_F11 => Some((0x67, 0x7A)), NK_F12 => Some((0x6F, 0x7B)),
        NK_RETURN => Some((0x24, 0x0D)), NK_TAB => Some((0x30, 0x09)),
        NK_SPACE => Some((0x31, 0x20)), NK_BACKSPACE => Some((0x33, 0x08)),
        NK_ESCAPE => Some((0x35, 0x1B)), NK_DELETE => Some((0x75, 0x2E)),
        NK_UP => Some((0x7E, 0x26)), NK_DOWN => Some((0x7D, 0x28)),
        NK_LEFT => Some((0x7B, 0x25)), NK_RIGHT => Some((0x7C, 0x27)),
        NK_HOME => Some((0x73, 0x24)), NK_END => Some((0x77, 0x23)),
        NK_PAGE_UP => Some((0x74, 0x21)), NK_PAGE_DOWN => Some((0x79, 0x22)),
        NK_CTRL_LEFT => Some((0x37, 0xA2)), NK_CTRL_RIGHT => Some((0x36, 0xA3)),
        NK_META_LEFT => Some((0x3B, 0x5B)), NK_META_RIGHT => Some((0x3E, 0x5C)),
        NK_SHIFT_LEFT => Some((0x38, 0xA0)), NK_SHIFT_RIGHT => Some((0x3C, 0xA1)),
        NK_ALT_LEFT => Some((0x3A, 0xA4)), NK_ALT_RIGHT => Some((0x3D, 0xA5)),
        NK_CAPS_LOCK => Some((0x39, 0x14)), NK_MINUS => Some((0x1B, 0xBD)),
        NK_EQUAL => Some((0x18, 0xBB)), NK_LBRACKET => Some((0x21, 0xDB)),
        NK_RBRACKET => Some((0x1E, 0xDD)), NK_BACKSLASH => Some((0x2A, 0xDC)),
        NK_SEMICOLON => Some((0x29, 0xBA)), NK_QUOTE => Some((0x27, 0xDE)),
        NK_GRAVE => Some((0x32, 0xC0)), NK_COMMA => Some((0x2B, 0xBC)),
        NK_PERIOD => Some((0x2F, 0xBE)), NK_SLASH => Some((0x2C, 0xBF)),
        _ => None,
    }
}

/// The macOS keycode that stands for each neutral key.
pub open spec fn spec_neutral_to_macos_keycode(nk: u32) -> Option<u32> {
    match key_codes(nk) {
        Some((mac, _)) => Some(mac),
        None => None,
    }
}

/// The Windows virtual-key code that stands for each neutral key.
pub open spec fn spec_neutral_to_windows_vk(nk: u32) -> Option<u32> {
    match key_codes(nk) {
        Some((_, win)) => Some(win),
        None => None,
    }
}

/// A macOS keycode reads as the neutral key whose table entry it is.
pub open spec fn spec_macos_keycode_to_neutral(kc: u32) -> Option<u32> {
    if exists|nk: u32| #[trigger] spec_neutral_to_macos_keycode(nk) == Some(kc) {
        Some(choose|nk: u32| #[trigger] spec_neutral_to_macos_keycode(nk) == Some(kc))
    } else {
        None
    }
}

/// A Windows virtual key reads as the neutral key whose table entry it is; the
/// non-lateralized VK_SHIFT, VK_CONTROL and VK_MENU read as the left-hand keys.
pub open spec fn spec_windows_vk_to_neutral(vk: u32) -> Option<u32> {
    if vk == VK_SHIFT {
        Some(NK_SHIFT_LEFT)
    } else if vk == VK_CONTROL {
        Some(NK_CTRL_LEFT)
    } else if vk == VK_MENU {
        Some(NK_ALT_LEFT)
    } else if exists|nk: u32| #[trigger] spec_neutral_to_windows_vk(nk) == Some(vk) {
        Some(choose|nk: u32| #[trigger] spec_neutral_to_windows_vk(nk) == Some(vk))
    } else {
        None
    }
}

/// No two neutral keys share a macOS keycode.
pub proof fn lemma_macos_table_injective(n1: u32, n2: u32)
    requires
        spec_neutral_to_macos_keycode(n1) is Some,
        spec_neutral_to_macos_keycode(n1) == spec_neutral_to_macos_keycode(n2),
    ensures
        n1 == n2,
{
}

/// No two neutral keys share a Windows virtual-key code.
pub proof fn lemma_windows_table_injective(n1: u32, n2: u32)
    requires
        spec_neutral_to_windows_vk(n1) is Some,
        spec_neutral_to_windows_vk(n1) == spec_neutral_to_windows_vk(n2),
    ensures
        n1 == n2,
{
}

/// Every platform code in the tables is below 0x100, so it fits any keycode type.
pub proof fn lemma_table_codes_fit(nk: u32)
    ensures
        spec_neutral_to_macos_keycode(nk) matches Some(kc) ==> kc < 0x100,
        spec_neutral_to_windows_vk(nk) matches Some(vk) ==> vk < 0x100,
{
}

/// Each neutral key is sent to a Mac as the macOS virtual keycode of the key
/// it names (kVK_ANSI_Minus 0x1B for '-', kVK_ANSI_Equal 0x18 for '=', kVK_Command
/// 0x37 for CTRL by the Cmd/Ctrl swap, ...). Reading a macOS keycode gives the
/// key back (`lemma_macos_roundtrip_from_neutral`).
pub proof fn lemma_macos_keycodes_name_their_keys()
    ensures
        spec_neutral_to_macos_keycode(NK_A) == Some(0x00u32),
        spec_neutral_to_macos_keycode(NK_B) == Some(0x0Bu32),
        spec_neutral_to_macos_keycode(NK_C) == Some(0x08u32),
        spec_neutral_to_macos_keycode(NK_D) == Some(0x02u32),
        spec_neutral_to_macos_keycode(NK_E) == Some(0x0Eu32),
        spec_neutral_to_macos_keycode(NK_F) == Some(0x03u32),
        spec_neutral_to_macos_keycode(NK_G) == Some(0x05u32),
        spec_neutral_to_macos_keycode(NK_H) == Some(0x04u32),
        spec_neutral_to_macos_keycode(NK_I) == Some(0x22u32),
        spec_neutral_to_macos_keycode(NK_J) == Some(0x26u32),
        spec_neutral_to_macos_keycode(NK_K) == Some(0x28u32),
        spec_neutral_to_macos_keycode(NK_L) == Some(0x25u32),
        spec_neutral_to_macos_keycode(NK_M) == Some(0x2Eu32),
        spec_neutral_to_macos_keycode(NK_N) == Some(0x2Du32),
        spec_neutral_to_macos_keycode(NK_O) == Some(0x1Fu32),
        spec_neutral_to_macos_keycode(NK_P) == Some(0x23u32),
        spec_neutral_to_macos_keycode(NK_Q) == Some(0x0Cu32),
        spec_neutral_to_macos_keycode(NK_R) == Some(0x0Fu32),
        spec_neutral_to_macos_keycode(NK_S) == Some(0x01u32),
        spec_neutral_to_macos_keycode(NK_T) == Some(0x11u32),
        spec_neutral_to_macos_keycode(NK_U) == Some(0x20u32),
        spec_neutral_to_macos_keycode(NK_V) == Some(0x09u32),
        spec_neutral_to_macos_keycode(NK_W) == Some(0x0Du32),
        spec_neutral_to_macos_keycode(NK_X) == Some(0x07u32),
        spec_neutral_to_macos_keycode(NK_Y) == Some(0x10u32),
        spec_neutral_to_macos_keycode(NK_Z) == Some(0x06u32),
        spec_neutral_to_macos_keycode(NK_0) == Some(0x1Du32),
        spec_neutral_to_macos_keycode(NK_1) == Some(0x12u32),
        spec_neutral_to_macos_keycode(NK_2) == Some(0x13u32),
        spec_neutral_to_macos_keycode(NK_3) == Some(0x14u32),
        spec_neutral_to_macos_keycode(NK_4) == Some(0x15u32),
        spec_neutral_to_macos_keycode(NK_5) == Some(0x17u32),
        spec_neutral_to_macos_keycode(NK_6) == Some(0x16u32),
        spec_neutral_to_macos_keycode(NK_7) == Some(0x1Au32),
        spec_neutral_to_macos_keycode(NK_8) == Some(0x1Cu32),
        spec_neutral_to_macos_keycode(NK_9) == Some(0x19u32),
        spec_neutral_to_macos_keycode(NK_F1) == Some(0x7Au32),
        spec_neutral_to_macos_keycode(NK_F2) == Some(0x78u32),
        spec_neutral_to_macos_keycode(NK_F3) == Some(0x63u32),
        spec_neutral_to_macos_keycode(NK_F4) == Some(0x76u32),
        spec_neutral_to_macos_keycode(NK_F5) == Some(0x60u32),
        spec_neutral_to_macos_keycode(NK_F6) == Some(0x61u32),
        spec_neutral_to_macos_keycode(NK_F7) == Some(0x62u32),
        spec_neutral_to_macos_keycode(NK_F8) == Some(0x64u32),
        spec_neutral_to_macos_keycode(NK_F9) == Some(0x65u32),
        spec_neutral_to_macos_keycode(NK_F10) == Some(0x6Du32),
        spec_neutral_to_macos_keycode(NK_F11) == Some(0x67u32),
        spec_neutral_to_macos_keycode(NK_F12) == Some(0x6Fu32),
        spec_neutral_to_macos_keycode(NK_RETURN) == Some(0x24u32),
        spec_neutral_to_macos_keycode(NK_TAB) == Some(0x30u32),
        spec_neutral_to_macos_keycode(NK_SPACE) == Some(0x31u32),
        spec_neutral_to_macos_keycode(NK_BACKSPACE) == Some(0x33u32),
        spec_neutral_to_macos_keycode(NK_ESCAPE) == Some(0x35u32),
        spec_neutral_to_macos_keycode(NK_DELETE) == Some(0x75u32),
        spec_neutral_to_macos_keycode(NK_UP) == Some(0x7Eu32),
        spec_neutral_to_macos_keycode(NK_DOWN) == Some(0x7Du32),
        spec_neutral_to_macos_keycode(NK_LEFT) == Some(0x7Bu32),
        spec_neutral_to_macos_keycode(NK_RIGHT) == Some(0x7Cu32),
        spec_neutral_to_macos_keycode(NK_HOME) == Some(0x73u32),
        spec_neutral_to_macos_keycode(NK_END) == Some(0x77u32),
        spec_neutral_to_macos_keycode(NK_PAGE_UP) == Some(0x74u32),
        spec_neutral_to_macos_keycode(NK_PAGE_DOWN) == Some(0x79u32),
        spec_neutral_to_macos_keycode(NK_CTRL_LEFT) == Some(0x37u32),
        spec_neutral_to_macos_keycode(NK_CTRL_RIGHT) == Some(0x36u32),
        spec_neutral_to_macos_keycode(NK_META_LEFT) == Some(0x3Bu32),
        spec_neutral_to_macos_keycode(NK_META_RIGHT) == Some(0x3Eu32),
        spec_neutral_to_macos_keycode(NK_SHIFT_LEFT) == Some(0x38u32),
        spec_neutral_to_macos_keycode(NK_SHIFT_RIGHT) == Some(0x3Cu32),
        spec_neutral_to_macos_keycode(NK_ALT_LEFT) == Some(0x3Au32),
        spec_neutral_to_macos_keycode(NK_ALT_RIGHT) == Some(0x3Du32),
        spec_neutral_to_macos_keycode(NK_CAPS_LOCK) == Some(0x39u32),
        spec_neutral_to_macos_keycode(NK_MINUS) == Some(0x1Bu32),
        spec_neutral_to_macos_keycode(NK_EQUAL) == Some(0x18u32),
        spec_neutral_to_macos_keycode(NK_LBRACKET) == Some(0x21u32),
        spec_neutral_to_macos_keycode(NK_RBRACKET) == Some(0x1Eu32),
        spec_neutral_to_macos_keycode(NK_BACKSLASH) == Some(0x2Au32),
        spec_neutral_to_macos_keycode(NK_SEMICOLON) == Some(0x29u32),
        spec_neutral_to_macos_keycode(NK_QUOTE) == Some(0x27u32),
        spec_neutral_to_macos_keycode(NK_GRAVE) == Some(0x32u32),
        spec_neutral_to_macos_keycode(NK_COMMA) == Some(0x2Bu32),
        spec_neutral_to_macos_keycode(NK_PERIOD) == Some(0x2Fu32),
        spec_neutral_to_macos_keycode(NK_SLASH) == Some(0x2Cu32),
{
}

/// Each neutral key is sent to Windows as the virtual-key code of the key it
/// names: letters are VK 0x41 ('A') onwards and digits VK 0x30 ('0') onwards in
/// order, F1..F12 are VK_F1 (0x70) onwards, and the rest are the named VK_
/// codes (VK_OEM_MINUS 0xBD for '-', VK_OEM_PLUS 0xBB for '=', VK_LCONTROL 0xA2
/// for CTRL, ...). Reading a virtual key gives the key back
/// (`lemma_windows_roundtrip_from_neutral`).
pub proof fn lemma_windows_vks_name_their_keys()
    ensures
        forall|nk: u32|
            NK_A <= nk <= NK_Z ==> #[trigger] spec_neutral_to_windows_vk(nk) == Some(
                (0x41 + (nk - NK_A)) as u32,
            ),
        forall|nk: u32|
            NK_0 <= nk <= NK_9 ==> #[trigger] spec_neutral_to_windows_vk(nk) == Some(
                (0x30 + (nk - NK_0)) as u32,
            ),
        forall|nk: u32|
            NK_F1 <= nk <= NK_F12 ==> #[trigger] spec_neutral_to_windows_vk(nk) == Some(
                (0x70 + (nk - NK_F1)) as u32,
            ),
        spec_neutral_to_windows_vk(NK_A) == Some(0x41u32),
        spec_neutral_to_windows_vk(NK_B) == Some(0x42u32),
        spec_neutral_to_windows_vk(NK_C) == Some(0x43u32),
        spec_neutral_to_windows_vk(NK_D) == Some(0x44u32),
        spec_neutral_to_windows_vk(NK_E) == Some(0x45u32),
        spec_neutral_to_windows_vk(NK_F) == Some(0x46u32),
        spec_neutral_to_windows_vk(NK_G) == Some(0x47u32),
        spec_neutral_to_windows_vk(NK_H) == Some(0x48u32),
        spec_neutral_to_windows_vk(NK_I) == Some(0x49u32),
        spec_neutral_to_windows_vk(NK_J) == Some(0x4Au32),
        spec_neutral_to_windows_vk(NK_K) == Some(0x4Bu32),
        spec_neutral_to_windows_vk(NK_L) == Some(0x4Cu32),
        spec_neutral_to_windows_vk(NK_M) == Some(0x4Du32),
        spec_neutral_to_windows_vk(NK_N) == Some(0x4Eu32),
        spec_neutral_to_windows_vk(NK_O) == Some(0x4Fu32),
        spec_neutral_to_windows_vk(NK_P) == Some(0x50u32),
        spec_neutral_to_windows_vk(NK_Q) == Some(0x51u32),
        spec_neutral_to_windows_vk(NK_R) == Some(0x52u32),
        spec_neutral_to_windows_vk(NK_S) == Some(0x53u32),
        spec_neutral_to_windows_vk(NK_T) == Some(0x54u32),
        spec_neutral_to_windows_vk(NK_U) == Some(0x55u32),
        spec_neutral_to_windows_vk(NK_V) == Some(0x56u32),
        spec_neutral_to_windows_vk(NK_W) == Some(0x57u32),
        spec_neutral_to_windows_vk(NK_X) == Some(0x58u32),
        spec_neutral_to_windows_vk(NK_Y) == Some(0x59u32),
        spec_neutral_to_windows_vk(NK_Z) == Some(0x5Au32),
        spec_neutral_to_windows_vk(NK_0) == Some(0x30u32),
        spec_neutral_to_windows_vk(NK_1) == Some(0x31u32),
        spec_neutral_to_windows_vk(NK_2) == Some(0x32u32),
        spec_neutral_to_windows_vk(NK_3) == Some(0x33u32),
        spec_neutral_to_windows_vk(NK_4) == Some(0x34u32),
        spec_neutral_to_windows_vk(NK_5) == Some(0x35u32),
        spec_neutral_to_windows_vk(NK_6) == Some(0x36u32),
        spec_neutral_to_windows_vk(NK_7) == Some(0x37u32),
        spec_neutral_to_windows_vk(NK_8) == Some(0x38u32),
        spec_neutral_to_windows_vk(NK_9) == Some(0x39u32),
        spec_neutral_to_windows_vk(NK_F1) == Some(0x70u32),
        spec_neutral_to_windows_vk(NK_F2) == Some(0x71u32),
        spec_neutral_to_windows_vk(NK_F3) == Some(0x72u32),
        spec_neutral_to_windows_vk(NK_F4) == Some(0x73u32),
        spec_neutral_to_windows_vk(NK_F5) == Some(0x74u32),
        spec_neutral_to_windows_vk(NK_F6) == Some(0x75u32),
        spec_neutral_to_windows_vk(NK_F7) == Some(0x76u32),
        spec_neutral_to_windows_vk(NK_F8) == Some(0x77u32),
        spec_neutral_to_windows_vk(NK_F9) == Some(0x78u32),
        spec_neutral_to_windows_vk(NK_F10) == Some(0x79u32),
        spec_neutral_to_windows_vk(NK_F11) == Some(0x7Au32),
        spec_neutral_to_windows_vk(NK_F12) == Some(0x7Bu32),
        spec_neutral_to_windows_vk(NK_RETURN) == Some(0x0Du32),
        spec_neutral_to_windows_vk(NK_TAB) == Some(0x09u32),
        spec_neutral_to_windows_vk(NK_SPACE) == Some(0x20u32),
        spec_neutral_to_windows_vk(NK_BACKSPACE) == Some(0x08u32),
        spec_neutral_to_windows_vk(NK_ESCAPE) == Some(0x1Bu32),
        spec_neutral_to_windows_vk(NK_DELETE) == Some(0x2Eu32),
        spec_neutral_to_windows_vk(NK_UP) == Some(0x26u32),
        spec_neutral_to_windows_vk(NK_DOWN) == Some(0x28u32),
        spec_neutral_to_windows_vk(NK_LEFT) == Some(0x25u32),
        spec_neutral_to_windows_vk(NK_RIGHT) == Some(0x27u32),
        spec_neutral_to_windows_vk(NK_HOME) == Some(0x24u32),
        spec_neutral_to_windows_vk(NK_END) == Some(0x23u32),
        spec_neutral_to_windows_vk(NK_PAGE_UP) == Some(0x21u32),
        spec_neutral_to_windows_vk(NK_PAGE_DOWN) == Some(0x22u32),
        spec_neutral_to_windows_vk(NK_CTRL_LEFT) == Some(0xA2u32),
        spec_neutral_to_windows_vk(NK_CTRL_RIGHT) == Some(0xA3u32),
        spec_neutral_to_windows_vk(NK_META_LEFT) == Some(0x5Bu32),
        spec_neutral_to_windows_vk(NK_META_RIGHT) == Some(0x5Cu32),
        spec_neutral_to_windows_vk(NK_SHIFT_LEFT) == Some(0xA0u32),
        spec_neutral_to_windows_vk(NK_SHIFT_RIGHT) == Some(0xA1u32),
        spec_neutral_to_windows_vk(NK_ALT_LEFT) == Some(0xA4u32),
        spec_neutral_to_windows_vk(NK_ALT_RIGHT) == Some(0xA5u32),
        spec_neutral_to_windows_vk(NK_CAPS_LOCK) == Some(0x14u32),
        spec_neutral_to_windows_vk(NK_MINUS) == Some(0xBDu32),
        spec_neutral_to_windows_vk(NK_EQUAL) == Some(0xBBu32),
        spec_neutral_to_windows_vk(NK_LBRACKET) == Some(0xDBu32),
        spec_neutral_to_windows_vk(NK_RBRACKET) == Some(0xDDu32),
        spec_neutral_to_windows_vk(NK_BACKSLASH) == Some(0xDCu32),
        spec_neutral_to_windows_vk(NK_SEMICOLON) == Some(0xBAu32),
        spec_neutral_to_windows_vk(NK_QUOTE) == Some(0xDEu32),
        spec_neutral_to_windows_vk(NK_GRAVE) == Some(0xC0u32),
        spec_neutral_to_windows_vk(NK_COMMA) == Some(0xBCu32),
        spec_neutral_to_windows_vk(NK_PERIOD) == Some(0xBEu32),
        spec_neutral_to_windows_vk(NK_SLASH) == Some(0xBFu32),
{
}

// ── macOS keycode mapping ────────────────────────────────────────────

pub fn macos_keycode_to_neutral(kc: u32) -> (r: Option<u32>)
    ensures
        r == spec_macos_keycode_to_neutral(kc),
{
    let r = match kc {
        0x00 => Some(NK_A), 0x0B => Some(NK_B), 0x08 => Some(NK_C),
        0x02 => Some(NK_D), 0x0E => Some(NK_E), 0x03 => Some(NK_F),
        0x05 => Some(NK_G), 0x04 => Some(NK_H), 0x22 => Some(NK_I),
        0x26 => Some(NK_J), 0x28 => Some(NK_K), 0x25 => Some(NK_L),
        0x2E => Some(NK_M), 0x2D => Some(NK_N), 0x1F => Some(NK_O),
        0x23 => Some(NK_P), 0x0C => Some(NK_Q), 0x0F => Some(NK_R),
        0x01 => Some(NK_S), 0x11 => Some(NK_T), 0x20 => Some(NK_U),
        0x09 => Some(NK_V), 0x0D => Some(NK_W), 0x07 => Some(NK_X),
        0x10 => Some(NK_Y), 0x06 => Some(NK_Z), 0x1D => Some(NK_0),
        0x12 => Some(NK_1), 0x13 => Some(NK_2), 0x14 => Some(NK_3),
        0x15 => Some(NK_4), 0x17 => Some(NK_5), 0x16 => Some(NK_6),
        0x1A => Some(NK_7), 0x1C => Some(NK_8), 0x19 => Some(NK_9),
        0x7A => Some(NK_F1), 0x78 => Some(NK_F2), 0x63 => Some(NK_F3),
        0x76 => Some(NK_F4), 0x60 => Some(NK_F5), 0x61 => Some(NK_F6),
        0x62 => Some(NK_F7), 0x64 => Some(NK_F8), 0x65 => Some(NK_F9),
        0x6D => Some(NK_F10), 0x67 => Some(NK_F11), 0x6F => Some(NK_F12),
        0x24 => Some(NK_RETURN), 0x30 => Some(NK_TAB), 0x31 => Some(NK_SPACE),
        0x33 => Some(NK_BACKSPACE), 0x35 => Some(NK_ESCAPE), 0x75 => Some(NK_DELETE),
        0x7E => Some(NK_UP), 0x7D => Some(NK_DOWN), 0x7B => Some(NK_LEFT),
        0x7C => Some(NK_RIGHT), 0x73 => Some(NK_HOME), 0x77 => Some(NK_END),
        0x74 => Some(NK_PAGE_UP), 0x79 => Some(NK_PAGE_DOWN), 0x37 => Some(NK_CTRL_LEFT),
        0x36 => Some(NK_CTRL_RIGHT), 0x3B => Some(NK_META_LEFT), 0x3E => Some(NK_META_RIGHT),
        0x38 => Some(NK_SHIFT_LEFT), 0x3C => Some(NK_SHIFT_RIGHT), 0x3A => Some(NK_ALT_LEFT),
        0x3D => Some(NK_ALT_RIGHT), 0x39 => Some(NK_CAPS_LOCK), 0x1B => Some(NK_MINUS),
        0x18 => Some(NK_EQUAL), 0x21 => Some(NK_LBRACKET), 0x1E => Some(NK_RBRACKET),
        0x2A => Some(NK_BACKSLASH), 0x29 => Some(NK_SEMICOLON), 0x27 => Some(NK_QUOTE),
        0x32 => Some(NK_GRAVE), 0x2B => Some(NK_COMMA), 0x2F => Some(NK_PERIOD),
        0x2C => Some(NK_SLASH),
        _ => None,
    };
    proof {
        match r {
            Some(nk) => {
                assert(spec_neutral_to_macos_keycode(nk) == Some(kc));
                assert forall|n: u32| #[trigger] spec_neutral_to_macos_keycode(n) == Some(kc) implies n == nk by {
                    lemma_macos_table_injective(nk, n);
                }
            },
            None => {
                assert forall|n: u32| #[trigger] spec_neutral_to_macos_keycode(n) != Some(kc) by {}
            },
        }
    }
    r
}

pub fn neutral_to_macos_keycode(nk: u32) -> (r: Option<u32>)
    ensures
        r == spec_neutral_to_macos_keycode(nk),
{
    match nk {
        NK_A => Some(0x00), NK_B => Some(0x0B), NK_C => Some(0x08),
        NK_D => Some(0x02), NK_E => Some(0x0E), NK_F => Some(0x03),
        NK_G => Some(0x05), NK_H => Some(0x04), NK_I => Some(0x22),
        NK_J => Some(0x26), NK_K => Some(0x28), NK_L => Some(0x25),
        NK_M => Some(0x2E), NK_N => Some(0x2D), NK_O => Some(0x1F),
        NK_P => Some(0x23), NK_Q => Some(0x0C), NK_R => Some(0x0F),
        NK_S => Some(0x01), NK_T => Some(0x11), NK_U => Some(0x20),
        NK_V => Some(0x09), NK_W => Some(0x0D), NK_X => Some(0x07),
        NK_Y => Some(0x10), NK_Z => Some(0x06), NK_0 => Some(0x1D),
        NK_1 => Some(0x12), NK_2 => Some(0x13), NK_3 => Some(0x14),
        NK_4 => Some(0x15), NK_5 => Some(0x17), NK_6 => Some(0x16),
        NK_7 => Some(0x1A), NK_8 => Some(0x1C), NK_9 => Some(0x19),
        NK_F1 => Some(0x7A), NK_F2 => Some(0x78), NK_F3 => Some(0x63),
        NK_F4 => Some(0x76), NK_F5 => Some(0x60), NK_F6 => Some(0x61),
        NK_F7 => Some(0x62), NK_F8 => Some(0x64), NK_F9 => Some(0x65),
        NK_F10 => Some(0x6D), NK_F11 => Some(0x67), NK_F12 => Some(0x6F),
        NK_RETURN => Some(0x24), NK_TAB => Some(0x30), NK_SPACE => Some(0x31),
        NK_BACKSPACE => Some(0x33), NK_ESCAPE => Some(0x35), NK_DELETE => Some(0x75),
        NK_UP => Some(0x7E), NK_DOWN => Some(0x7D), NK_LEFT => Some(0x7B),
        NK_RIGHT => Some(0x7C), NK_HOME => Some(0x73), NK_END => Some(0x77),
        NK_PAGE_UP => Some(0x74), NK_PAGE_DOWN => Some(0x79), NK_CTRL_LEFT => Some(0x37),
        NK_CTRL_RIGHT => Some(0x36), NK_META_LEFT => Some(0x3B), NK_META_RIGHT => Some(0x3E),
        NK_SHIFT_LEFT => Some(0x38), NK_SHIFT_RIGHT => Some(0x3C), NK_ALT_LEFT => Some(0x3A),
        NK_ALT_RIGHT => Some(0x3D), NK_CAPS_LOCK => Some(0x39), NK_MINUS => Some(0x1B),
        NK_EQUAL => Some(0x18), NK_LBRACKET => Some(0x21), NK_RBRACKET => Some(0x1E),
        NK_BACKSLASH => Some(0x2A), NK_SEMICOLON => Some(0x29), NK_QUOTE => Some(0x27),
        NK_GRAVE => Some(0x32), NK_COMMA => Some(0x2B), NK_PERIOD => Some(0x2F),
        NK_SLASH => Some(0x2C),
        _ => None,
    }
}

// ── Windows virtual-key mapping ──────────────────────────────────────

pub fn windows_vk_to_neutral(vk: u32) -> (r: Option<u32>)
    ensures
        r == spec_windows_vk_to_neutral(vk),
{
    let r = match vk {
        0x41 => Some(NK_A), 0x42 => Some(NK_B), 0x43 => Some(NK_C),
        0x44 => Some(NK_D), 0x45 => Some(NK_E), 0x46 => Some(NK_F),
        0x47 => Some(NK_G), 0x48 => Some(NK_H), 0x49 => Some(NK_I),
        0x4A => Some(NK_J), 0x4B => Some(NK_K), 0x4C => Some(NK_L),
        0x4D => Some(NK_M), 0x4E => Some(NK_N), 0x4F => Some(NK_O),
        0x50 => Some(NK_P), 0x51 => Some(NK_Q), 0x52 => Some(NK_R),
        0x53 => Some(NK_S), 0x54 => Some(NK_T), 0x55 => Some(NK_U),
        0x56 => Some(NK_V), 0x57 => Some(NK_W), 0x58 => Some(NK_X),
        0x59 => Some(NK_Y), 0x5A => Some(NK_Z), 0x30 => Some(NK_0),
        0x31 => Some(NK_1), 0x32 => Some(NK_2), 0x33 => Some(NK_3),
        0x34 => Some(NK_4), 0x35 => Some(NK_5), 0x36 => Some(NK_6),
        0x37 => Some(NK_7), 0x38 => Some(NK_8), 0x39 => Some(NK_9),
        0x70 => Some(NK_F1), 0x71 => Some(NK_F2), 0x72 => Some(NK_F3),
        0x73 => Some(NK_F4), 0x74 => Some(NK_F5), 0x75 => Some(NK_F6),
        0x76 => Some(NK_F7), 0x77 => Some(NK_F8), 0x78 => Some(NK_F9),
        0x79 => Some(NK_F10), 0x7A => Some(NK_F11), 0x7B => Some(NK_F12),
        0x0D => Some(NK_RETURN), 0x09 => Some(NK_TAB), 0x20 => Some(NK_SPACE),
        0x08 => Some(NK_BACKSPACE), 0x1B => Some(NK_ESCAPE), 0x2E => Some(NK_DELETE),
        0x26 => Some(NK_UP), 0x28 => Some(NK_DOWN), 0x25 => Some(NK_LEFT),
        0x27 => Some(NK_RIGHT), 0x24 => Some(NK_HOME), 0x23 => Some(NK_END),
        0x21 => Some(NK_PAGE_UP), 0x22 => Some(NK_PAGE_DOWN), 0xA2 => Some(NK_CTRL_LEFT),
        0xA3 => Some(NK_CTRL_RIGHT), 0x5B => Some(NK_META_LEFT), 0x5C => Some(NK_META_RIGHT),
        0xA0 => Some(NK_SHIFT_LEFT), 0xA1 => Some(NK_SHIFT_RIGHT), 0xA4 => Some(NK_ALT_LEFT),
        0xA5 => Some(NK_ALT_RIGHT), 0x14 => Some(NK_CAPS_LOCK), 0x10 => Some(NK_SHIFT_LEFT),
        0x11 => Some(NK_CTRL_LEFT), 0x12 => Some(NK_ALT_LEFT), 0xBD => Some(NK_MINUS),
        0xBB => Some(NK_EQUAL), 0xDB => Some(NK_LBRACKET), 0xDD => Some(NK_RBRACKET),
        0xDC => Some(NK_BACKSLASH), 0xBA => Some(NK_SEMICOLON), 0xDE => Some(NK_QUOTE),
        0xC0 => Some(NK_GRAVE), 0xBC => Some(NK_COMMA), 0xBE => Some(NK_PERIOD),
        0xBF => Some(NK_SLASH),
        _ => None,
    };
    proof {
        if vk != VK_SHIFT && vk != VK_CONTROL && vk != VK_MENU {
            match r {
                Some(nk) => {
                    assert(spec_neutral_to_windows_vk(nk) == Some(vk));
                    assert forall|n: u32| #[trigger] spec_neutral_to_windows_vk(n) == Some(vk) implies n == nk by {
                        lemma_windows_table_injective(nk, n);
                    }
                },
                None => {
                    assert forall|n: u32| #[trigger] spec_neutral_to_windows_vk(n) != Some(vk) by {}
                },
            }
        }
    }
    r
}

pub fn neutral_to_windows_vk(nk: u32) -> (r: Option<u32>)
    ensures
        r == spec_neutral_to_windows_vk(nk),
{
    match nk {
        NK_A => Some(0x41), NK_B => Some(0x42), NK_C => Some(0x43),
        NK_D => Some(0x44), NK_E => Some(0x45), NK_F => Some(0x46),
        NK_G => Some(0x47), NK_H => Some(0x48), NK_I => Some(0x49),
        NK_J => Some(0x4A), NK_K => Some(0x4B), NK_L => Some(0x4C),
        NK_M => Some(0x4D), NK_N => Some(0x4E), NK_O => Some(0x4F),
        NK_P => Some(0x50), NK_Q => Some(0x51), NK_R => Some(0x52),
        NK_S => Some(0x53), NK_T => Some(0x54), NK_U => Some(0x55),
        NK_V => Some(0x56), NK_W => Some(0x57), NK_X => Some(0x58),
        NK_Y => Some(0x59), NK_Z => Some(0x5A), NK_0 => Some(0x30),
        NK_1 => Some(0x31), NK_2 => Some(0x32), NK_3 => Some(0x33),
        NK_4 => Some(0x34), NK_5 => Some(0x35), NK_6 => Some(0x36),
        NK_7 => Some(0x37), NK_8 => Some(0x38), NK_9 => Some(0x39),
        NK_F1 => Some(0x70), NK_F2 => Some(0x71), NK_F3 => Some(0x72),
        NK_F4 => Some(0x73), NK_F5 => Some(0x74), NK_F6 => Some(0x75),
        NK_F7 => Some(0x76), NK_F8 => Some(0x77), NK_F9 => Some(0x78),
        NK_F10 => Some(0x79), NK_F11 => Some(0x7A), NK_F12 => Some(0x7B),
        NK_RETURN => Some(0x0D), NK_TAB => Some(0x09), NK_SPACE => Some(0x20),
        NK_BACKSPACE => Some(0x08), NK_ESCAPE => Some(0x1B), NK_DELETE => Some(0x2E),
        NK_UP => Some(0x26), NK_DOWN => Some(0x28), NK_LEFT => Some(0x25),
        NK_RIGHT => Some(0x27), NK_HOME => Some(0x24), NK_END => Some(0x23),
        NK_PAGE_UP => Some(0x21), NK_PAGE_DOWN => Some(0x22), NK_CTRL_LEFT => Some(0xA2),
        NK_CTRL_RIGHT => Some(0xA3), NK_META_LEFT => Some(0x5B), NK_META_RIGHT => Some(0x5C),
        NK_SHIFT_LEFT => Some(0xA0), NK_SHIFT_RIGHT => Some(0xA1), NK_ALT_LEFT => Some(0xA4),
        NK_ALT_RIGHT => Some(0xA5), NK_CAPS_LOCK => Some(0x14), NK_MINUS => Some(0xBD),
        NK_EQUAL => Some(0xBB), NK_LBRACKET => Some(0xDB), NK_RBRACKET => Some(0xDD),
        NK_BACKSLASH => Some(0xDC), NK_SEMICOLON => Some(0xBA), NK_QUOTE => Some(0xDE),
        NK_GRAVE => Some(0xC0), NK_COMMA => Some(0xBC), NK_PERIOD => Some(0xBE),
        NK_SLASH => Some(0xBF),
        _ => None,
    }
}

// ── Modifier helpers ─────────────────────────────────────────────────

/// The modifier bitfield with exactly the given modifiers held.
pub open spec fn modifier_bits(shift: bool, ctrl: bool, alt: bool, meta: bool) -> u8 {
    (if shift { MOD_SHIFT } else { 0u8 }) | (if ctrl { MOD_CTRL } else { 0u8 }) | (if alt {
        MOD_ALT
    } else {
        0u8
    }) | (if meta { MOD_META } else { 0u8 })
}

/// Each modifier has a bit of its own, and no other bit is ever set.
pub proof fn lemma_modifier_bits(shift: bool, ctrl: bool, alt: bool, meta: bool)
    ensures
        (modifier_bits(shift, ctrl, alt, meta) & MOD_SHIFT != 0) == shift,
        (modifier_bits(shift, ctrl, alt, meta) & MOD_CTRL != 0) == ctrl,
        (modifier_bits(shift, ctrl, alt, meta) & MOD_ALT != 0) == alt,
        (modifier_bits(shift, ctrl, alt, meta) & MOD_META != 0) == meta,
        modifier_bits(shift, ctrl, alt, meta) & 0xF0u8 == 0,
{
    assert((((if shift { 1u8 } else { 0u8 }) | (if ctrl { 2u8 } else { 0u8 }) | (if alt {
        4u8
    } else {
        0u8
    }) | (if meta { 8u8 } else { 0u8 })) & 1u8 != 0) == shift) by (bit_vector);
    assert((((if shift { 1u8 } else { 0u8 }) | (if ctrl { 2u8 } else { 0u8 }) | (if alt {
        4u8
    } else {
        0u8
    }) | (if meta { 8u8 } else { 0u8 })) & 2u8 != 0) == ctrl) by (bit_vector);
    assert((((if shift { 1u8 } else { 0u8 }) | (if ctrl { 2u8 } else { 0u8 }) | (if alt {
        4u8
    } else {
        0u8
    }) | (if meta { 8u8 } else { 0u8 })) & 4u8 != 0) == alt) by (bit_vector);
    assert((((if shift { 1u8 } else { 0u8 }) | (if ctrl { 2u8 } else { 0u8 }) | (if alt {
        4u8
    } else {
        0u8
    }) | (if meta { 8u8 } else { 0u8 })) & 8u8 != 0) == meta) by (bit_vector);
    assert((((if shift { 1u8 } else { 0u8 }) | (if ctrl { 2u8 } else { 0u8 }) | (if alt {
        4u8
    } else {
        0u8
    }) | (if meta { 8u8 } else { 0u8 })) & 0xF0u8) == 0) by (bit_vector);
}

proof fn lemma_set_bit_if(m: u8, b: u8, cond: bool)
    ensures
        (if cond { m | b } else { m }) == m | (if cond { b } else { 0u8 }),
{
    assert(m | 0u8 == m) by (bit_vector);
}

proof fn lemma_or_reorder(s: u8, c: u8, a: u8, m: u8)
    ensures
        (((0u8 | s) | m) | a) | c == s | c | a | m,
        (((0u8 | s) | c) | a) | m == s | c | a | m,
{
    assert((((0u8 | s) | m) | a) | c == s | c | a | m) by (bit_vector);
    assert((((0u8 | s) | c) | a) | m == s | c | a | m) by (bit_vector);
}

/// Convert macOS CGEventFlags to the modifier bitfield.
/// Applies the Cmd/Ctrl swap: the Command flag sets MOD_CTRL, the Control flag MOD_META.
pub fn macos_flags_to_modifiers(flags: u64) -> (mods: u8)
    ensures
        mods == modifier_bits(
            flags & MAC_FLAG_SHIFT != 0,
            flags & MAC_FLAG_COMMAND != 0,
            flags & MAC_FLAG_OPTION != 0,
            flags & MAC_FLAG_CONTROL != 0,
        ),
{
    let mut mods = 0u8;
    let ghost m0 = mods;
    if flags & MAC_FLAG_SHIFT != 0 {
        mods |= MOD_SHIFT;
    }
    let ghost m1 = mods;
    if flags & MAC_FLAG_CONTROL != 0 {
        mods |= MOD_META;
    }
    let ghost m2 = mods;
    if flags & MAC_FLAG_OPTION != 0 {
        mods |= MOD_ALT;
    }
    let ghost m3 = mods;
    if flags & MAC_FLAG_COMMAND != 0 {
        mods |= MOD_CTRL;
    }
    proof {
        let s = if flags & MAC_FLAG_SHIFT != 0 { MOD_SHIFT } else { 0u8 };
        let m = if flags & MAC_FLAG_CONTROL != 0 { MOD_META } else { 0u8 };
        let a = if flags & MAC_FLAG_OPTION != 0 { MOD_ALT } else { 0u8 };
        let c = if flags & MAC_FLAG_COMMAND != 0 { MOD_CTRL } else { 0u8 };
        lemma_set_bit_if(m0, MOD_SHIFT, flags & MAC_FLAG_SHIFT != 0);
        lemma_set_bit_if(m1, MOD_META, flags & MAC_FLAG_CONTROL != 0);
        lemma_set_bit_if(m2, MOD_ALT, flags & MAC_FLAG_OPTION != 0);
        lemma_set_bit_if(m3, MOD_CTRL, flags & MAC_FLAG_COMMAND != 0);
        lemma_or_reorder(s, c, a, m);
    }
    mods
}

/// Convert Windows modifier key states to the modifier bitfield.
/// No swap: Windows Ctrl sets MOD_CTRL, the Windows key MOD_META.
pub fn windows_mods_to_modifiers(ctrl: bool, shift: bool, alt: bool, win: bool) -> (mods: u8)
    ensures
        mods == modifier_bits(shift, ctrl, alt, win),
{
    let mut mods = 0u8;
    let ghost m0 = mods;
    if shift {
        mods |= MOD_SHIFT;
    }
    let ghost m1 = mods;
    if ctrl {
        mods |= MOD_CTRL;
    }
    let ghost m2 = mods;
    if alt {
        mods |= MOD_ALT;
    }
    let ghost m3 = mods;
    if win {
        mods |= MOD_META;
    }
    proof {
        lemma_set_bit_if(m0, MOD_SHIFT, shift);
        lemma_set_bit_if(m1, MOD_CTRL, ctrl);
        lemma_set_bit_if(m2, MOD_ALT, alt);
        lemma_set_bit_if(m3, MOD_META, win);
        lemma_or_reorder(
            if shift { MOD_SHIFT } else { 0u8 },
            if ctrl { MOD_CTRL } else { 0u8 },
            if alt { MOD_ALT } else { 0u8 },
            if win { MOD_META } else { 0u8 },
        );
    }
    mods
}

// ── Laws of the tables ───────────────────────────────────────────────

/// Sending a neutral key to macOS and reading the keycode back gives the same neutral key.
pub proof fn lemma_macos_roundtrip_from_neutral(nk: u32)
    requires
        spec_neutral_to_macos_keycode(nk) is Some,
    ensures
        spec_macos_keycode_to_neutral(spec_neutral_to_macos_keycode(nk)->0) == Some(nk),
{
    let kc = spec_neutral_to_macos_keycode(nk)->0;
    let n = choose|n: u32| #[trigger] spec_neutral_to_macos_keycode(n) == Some(kc);
    lemma_macos_table_injective(nk, n);
}

/// Reading a macOS keycode and sending the neutral key back gives the same keycode.
pub proof fn lemma_macos_roundtrip_from_keycode(kc: u32)
    requires
        spec_macos_keycode_to_neutral(kc) is Some,
    ensures
        spec_neutral_to_macos_keycode(spec_macos_keycode_to_neutral(kc)->0) == Some(kc),
{
}

/// Sending a neutral key to Windows and reading the virtual key back gives the same neutral key.
pub proof fn lemma_windows_roundtrip_from_neutral(nk: u32)
    requires
        spec_neutral_to_windows_vk(nk) is Some,
    ensures
        spec_windows_vk_to_neutral(spec_neutral_to_windows_vk(nk)->0) == Some(nk),
{
    let vk = spec_neutral_to_windows_vk(nk)->0;
    let n = choose|n: u32| #[trigger] spec_neutral_to_windows_vk(n) == Some(vk);
    lemma_windows_table_injective(nk, n);
}

/// Reading a Windows virtual key and sending the neutral key back gives the same
/// virtual key, except that the non-lateralized VK_SHIFT, VK_CONTROL and VK_MENU
/// come back as the left-hand VK_LSHIFT, VK_LCONTROL and VK_LMENU.
pub proof fn lemma_windows_roundtrip_from_vk(vk: u32)
    requires
        spec_windows_vk_to_neutral(vk) is Some,
    ensures
        vk != VK_SHIFT && vk != VK_CONTROL && vk != VK_MENU ==> spec_neutral_to_windows_vk(
            spec_windows_vk_to_neutral(vk)->0,
        ) == Some(vk),
        vk == VK_SHIFT ==> spec_neutral_to_windows_vk(spec_windows_vk_to_neutral(vk)->0) == Some(
            0xA0u32,
        ),
        vk == VK_CONTROL ==> spec_neutral_to_windows_vk(spec_windows_vk_to_neutral(vk)->0) == Some(
            0xA2u32,
        ),
        vk == VK_MENU ==> spec_neutral_to_windows_vk(spec_windows_vk_to_neutral(vk)->0) == Some(
            0xA4u32,
        ),
{
}

/// Both platforms' tables cover the same neutral keys, so any key read on one
/// platform can be sent to the other.
pub proof fn lemma_tables_cover_same_keys(nk: u32)
    ensures
        spec_neutral_to_macos_keycode(nk) is Some <==> spec_neutral_to_windows_vk(nk) is Some,
{
}

/// The Cmd/Ctrl swap: macOS Command keys and Windows Ctrl keys are the same
/// neutral keys, and so are macOS Control keys and the Windows keys.
pub proof fn lemma_cmd_ctrl_swap()
    ensures
        spec_macos_keycode_to_neutral(0x37) == Some(NK_CTRL_LEFT),
        spec_macos_keycode_to_neutral(0x36) == Some(NK_CTRL_RIGHT),
        spec_macos_keycode_to_neutral(0x3B) == Some(NK_META_LEFT),
        spec_macos_keycode_to_neutral(0x3E) == Some(NK_META_RIGHT),
        spec_windows_vk_to_neutral(0xA2) == Some(NK_CTRL_LEFT),
        spec_windows_vk_to_neutral(0xA3) == Some(NK_CTRL_RIGHT),
        spec_windows_vk_to_neutral(0x5B) == Some(NK_META_LEFT),
        spec_windows_vk_to_neutral(0x5C) == Some(NK_META_RIGHT),
{
    lemma_macos_roundtrip_from_neutral(NK_CTRL_LEFT);
    lemma_macos_roundtrip_from_neutral(NK_CTRL_RIGHT);
    lemma_macos_roundtrip_from_neutral(NK_META_LEFT);
    lemma_macos_roundtrip_from_neutral(NK_META_RIGHT);
    lemma_windows_roundtrip_from_neutral(NK_CTRL_LEFT);
    lemma_windows_roundtrip_from_neutral(NK_CTRL_RIGHT);
    lemma_windows_roundtrip_from_neutral(NK_META_LEFT);
    lemma_windows_roundtrip_from_neutral(NK_META_RIGHT);
}

/// The modifier side of the Cmd/Ctrl swap: among the macOS flags, Command sets
/// MOD_CTRL and Control sets MOD_META, just as Windows Ctrl and the Windows key do.
pub proof fn lemma_modifier_swap(flags: u64)
    ensures
        ({
            let mods = modifier_bits(
                flags & MAC_FLAG_SHIFT != 0,
                flags & MAC_FLAG_COMMAND != 0,
                flags & MAC_FLAG_OPTION != 0,
                flags & MAC_FLAG_CONTROL != 0,
            );
            &&& (mods & MOD_CTRL != 0) == (flags & MAC_FLAG_COMMAND != 0)
            &&& (mods & MOD_META != 0) == (flags & MAC_FLAG_CONTROL != 0)
            &&& (mods & MOD_SHIFT != 0) == (flags & MAC_FLAG_SHIFT != 0)
            &&& (mods & MOD_ALT != 0) == (flags & MAC_FLAG_OPTION != 0)
        }),
{
    lemma_modifier_bits(
        flags & MAC_FLAG_SHIFT != 0,
        flags & MAC_FLAG_COMMAND != 0,
        flags & MAC_FLAG_OPTION != 0,
        flags & MAC_FLAG_CONTROL != 0,
    );
}

} // verus!
