//! How the server reads the raw events that its platform's input hooks hand
//! over: which events the macOS event tap listens for and what each event type
//! is, and what the Windows low-level hook messages mean.
use crate::keymap::{
    spec_neutral_to_macos_keycode, MAC_FLAG_CAPS_LOCK, MAC_FLAG_COMMAND, MAC_FLAG_CONTROL,
    MAC_FLAG_OPTION, MAC_FLAG_SHIFT, NK_ALT_LEFT, NK_ALT_RIGHT, NK_CAPS_LOCK, NK_CTRL_LEFT,
    NK_CTRL_RIGHT, NK_META_LEFT, NK_META_RIGHT, NK_SHIFT_LEFT, NK_SHIFT_RIGHT,
};
use crate::protocol::MouseButton;
use vstd::prelude::*;

verus! {

// ── macOS event tap ──────────────────────────────────────────────────

// CGEventType values.
pub const KCG_EVENT_LEFT_MOUSE_DOWN: u32 = 1;

pub const KCG_EVENT_LEFT_MOUSE_UP: u32 = 2;

pub const KCG_EVENT_RIGHT_MOUSE_DOWN: u32 = 3;

pub const KCG_EVENT_RIGHT_MOUSE_UP: u32 = 4;

pub const KCG_EVENT_MOUSE_MOVED: u32 = 5;

pub const KCG_EVENT_LEFT_MOUSE_DRAGGED: u32 = 6;

pub const KCG_EVENT_RIGHT_MOUSE_DRAGGED: u32 = 7;

pub const KCG_EVENT_KEY_DOWN: u32 = 10;

pub const KCG_EVENT_KEY_UP: u32 = 11;

pub const KCG_EVENT_FLAGS_CHANGED: u32 = 12;

pub const KCG_EVENT_SCROLL_WHEEL: u32 = 22;

pub const KCG_EVENT_OTHER_MOUSE_DOWN: u32 = 25;

pub const KCG_EVENT_OTHER_MOUSE_UP: u32 = 26;

pub const KCG_EVENT_OTHER_MOUSE_DRAGGED: u32 = 27;

pub const KCG_EVENT_TAP_DISABLED_BY_TIMEOUT: u32 = 0xFFFFFFFE;

/// What an event handed to the macOS event tap is.
#[derive(Debug, Clone, Copy, PartialEq, Eq, Structural)]
pub enum TapEvent {
    /// The system disabled the tap after a timeout; it must be enabled again.
    TapDisabled,
    /// The pointer moved (dragging counts as moving).
    MouseMove,
    MouseButton { button: MouseButton, pressed: bool },
    ScrollWheel,
    KeyDown,
    KeyUp,
    /// A modifier key changed; whether it went down is read from the flags.
    FlagsChanged,
    /// Anything else, which the tap passes through untouched.
    Other,
}

/// The meaning of each CGEventType the tap receives.
pub open spec fn spec_tap_event(event_type: u32) -> TapEvent {
    if event_type == KCG_EVENT_TAP_DISABLED_BY_TIMEOUT {
        TapEvent::TapDisabled
    } else if event_type == KCG_EVENT_MOUSE_MOVED || event_type == KCG_EVENT_LEFT_MOUSE_DRAGGED
        || event_type == KCG_EVENT_RIGHT_MOUSE_DRAGGED || event_type
        == KCG_EVENT_OTHER_MOUSE_DRAGGED {
        TapEvent::MouseMove
    } else if event_type == KCG_EVENT_LEFT_MOUSE_DOWN {
        TapEvent::MouseButton { button: MouseButton::Left, pressed: true }
    } else if event_type == KCG_EVENT_LEFT_MOUSE_UP {
        TapEvent::MouseButton { button: MouseButton::Left, pressed: false }
    } else if event_type == KCG_EVENT_RIGHT_MOUSE_DOWN {
        TapEvent::MouseButton { button: MouseButton::Right, pressed: true }
    } else if event_type == KCG_EVENT_RIGHT_MOUSE_UP {
        TapEvent::MouseButton { button: MouseButton::Right, pressed: false }
    } else if event_type == KCG_EVENT_OTHER_MOUSE_DOWN {
        TapEvent::MouseButton { button: MouseButton::Middle, pressed: true }
    } else if event_type == KCG_EVENT_OTHER_MOUSE_UP {
        TapEvent::MouseButton { button: MouseButton::Middle, pressed: false }
    } else if event_type == KCG_EVENT_SCROLL_WHEEL {
        TapEvent::ScrollWheel
    } else if event_type == KCG_EVENT_KEY_DOWN {
        TapEvent::KeyDown
    } else if event_type == KCG_EVENT_KEY_UP {
        TapEvent::KeyUp
    } else if event_type == KCG_EVENT_FLAGS_CHANGED {
        TapEvent::FlagsChanged
    } else {
        TapEvent::Other
    }
}

/// Each mouse button has a down type and, numbered right after it, an up
/// type: the down type reads as a press of the button and the up type as a
/// release of the same button, so every click reaches the client as one press
/// and one release.
pub proof fn lemma_tap_button_press_then_release(event_type: u32)
    ensures
        spec_tap_event(event_type) matches TapEvent::MouseButton { button, pressed: true }
            ==> event_type < 0xFFFF_FFFF && spec_tap_event((event_type + 1) as u32)
            == (TapEvent::MouseButton { button, pressed: false }),
        spec_tap_event(event_type) matches TapEvent::MouseButton { button, pressed: false }
            ==> event_type > 0 && spec_tap_event((event_type - 1) as u32)
            == (TapEvent::MouseButton { button, pressed: true }),
        spec_tap_event(KCG_EVENT_LEFT_MOUSE_DOWN) == (TapEvent::MouseButton {
            button: MouseButton::Left,
            pressed: true,
        }),
        spec_tap_event(KCG_EVENT_LEFT_MOUSE_UP) == (TapEvent::MouseButton {
            button: MouseButton::Left,
            pressed: false,
        }),
        spec_tap_event(KCG_EVENT_RIGHT_MOUSE_DOWN) == (TapEvent::MouseButton {
            button: MouseButton::Right,
            pressed: true,
        }),
        spec_tap_event(KCG_EVENT_RIGHT_MOUSE_UP) == (TapEvent::MouseButton {
            button: MouseButton::Right,
            pressed: false,
        }),
        spec_tap_event(KCG_EVENT_OTHER_MOUSE_DOWN) == (TapEvent::MouseButton {
            button: MouseButton::Middle,
            pressed: true,
        }),
        spec_tap_event(KCG_EVENT_OTHER_MOUSE_UP) == (TapEvent::MouseButton {
            button: MouseButton::Middle,
            pressed: false,
        }),
{
}

/// Dragging with any button held is a pointer move, and key events keep their
/// direction: a key-down type reads as `KeyDown`, a key-up type as `KeyUp`.
pub proof fn lemma_tap_moves_and_keys()
    ensures
        spec_tap_event(KCG_EVENT_MOUSE_MOVED) == TapEvent::MouseMove,
        spec_tap_event(KCG_EVENT_LEFT_MOUSE_DRAGGED) == TapEvent::MouseMove,
        spec_tap_event(KCG_EVENT_RIGHT_MOUSE_DRAGGED) == TapEvent::MouseMove,
        spec_tap_event(KCG_EVENT_OTHER_MOUSE_DRAGGED) == TapEvent::MouseMove,
        spec_tap_event(KCG_EVENT_KEY_DOWN) == TapEvent::KeyDown,
        spec_tap_event(KCG_EVENT_KEY_UP) == TapEvent::KeyUp,
        spec_tap_event(KCG_EVENT_FLAGS_CHANGED) == TapEvent::FlagsChanged,
        spec_tap_event(KCG_EVENT_SCROLL_WHEEL) == TapEvent::ScrollWheel,
{
}

/// Whether the tap turns events of this type into capture events.
pub open spec fn tap_handles(event_type: u32) -> bool {
    let e = spec_tap_event(event_type);
    e != TapEvent::Other && e != TapEvent::TapDisabled
}

/// What an event handed to the event tap is.
pub fn classify_tap_event(event_type: u32) -> (e: TapEvent)
    ensures
        e == spec_tap_event(event_type),
{
    match event_type {
        KCG_EVENT_TAP_DISABLED_BY_TIMEOUT => TapEvent::TapDisabled,
        KCG_EVENT_MOUSE_MOVED | KCG_EVENT_LEFT_MOUSE_DRAGGED | KCG_EVENT_RIGHT_MOUSE_DRAGGED
        | KCG_EVENT_OTHER_MOUSE_DRAGGED => TapEvent::MouseMove,
        KCG_EVENT_LEFT_MOUSE_DOWN => TapEvent::MouseButton {
            button: MouseButton::Left,
            pressed: true,
        },
        KCG_EVENT_LEFT_MOUSE_UP => TapEvent::MouseButton {
            button: MouseButton::Left,
            pressed: false,
        },
        KCG_EVENT_RIGHT_MOUSE_DOWN => TapEvent::MouseButton {
            button: MouseButton::Right,
            pressed: true,
        },
        KCG_EVENT_RIGHT_MOUSE_UP => TapEvent::MouseButton {
            button: MouseButton::Right,
            pressed: false,
        },
        KCG_EVENT_OTHER_MOUSE_DOWN => TapEvent::MouseButton {
            button: MouseButton::Middle,
            pressed: true,
        },
        KCG_EVENT_OTHER_MOUSE_UP => TapEvent::MouseButton {
            button: MouseButton::Middle,
            pressed: false,
        },
        KCG_EVENT_SCROLL_WHEEL => TapEvent::ScrollWheel,
        KCG_EVENT_KEY_DOWN => TapEvent::KeyDown,
        KCG_EVENT_KEY_UP => TapEvent::KeyUp,
        KCG_EVENT_FLAGS_CHANGED => TapEvent::FlagsChanged,
        _ => TapEvent::Other,
    }
}

proof fn lemma_tap_mask_bits(t: u64)
    by (bit_vector)
    requires
        t < 64,
    ensures
        ((0x0E40_1CFEu64 >> t) & 1 != 0) == (t == 1 || t == 2 || t == 3 || t == 4 || t == 5 || t
            == 6 || t == 7 || t == 10 || t == 11 || t == 12 || t == 22 || t == 25 || t == 26 || t
            == 27),
{
}

/// The event mask the tap is created with: bit `t` is set exactly for the
/// event types `t` that the tap turns into capture events.
pub fn tap_event_mask() -> (mask: u64)
    ensures
        forall|t: u32| t < 64 ==> (#[trigger] ((mask >> t) & 1) != 0) == tap_handles(t),
{
    let mask: u64 = (1u64 << KCG_EVENT_LEFT_MOUSE_DOWN) | (1u64 << KCG_EVENT_LEFT_MOUSE_UP) | (1u64
        << KCG_EVENT_RIGHT_MOUSE_DOWN) | (1u64 << KCG_EVENT_RIGHT_MOUSE_UP) | (1u64
        << KCG_EVENT_MOUSE_MOVED) | (1u64 << KCG_EVENT_LEFT_MOUSE_DRAGGED) | (1u64
        << KCG_EVENT_RIGHT_MOUSE_DRAGGED) | (1u64 << KCG_EVENT_KEY_DOWN) | (1u64
        << KCG_EVENT_KEY_UP) | (1u64 << KCG_EVENT_FLAGS_CHANGED) | (1u64 << KCG_EVENT_SCROLL_WHEEL)
        | (1u64 << KCG_EVENT_OTHER_MOUSE_DOWN) | (1u64 << KCG_EVENT_OTHER_MOUSE_UP) | (1u64
        << KCG_EVENT_OTHER_MOUSE_DRAGGED);
    assert(mask == 0x0E40_1CFEu64) by (bit_vector)
        requires
            mask == (1u64 << 1u32) | (1u64 << 2u32) | (1u64 << 3u32) | (1u64 << 4u32) | (1u64
                << 5u32) | (1u64 << 6u32) | (1u64 << 7u32) | (1u64 << 10u32) | (1u64 << 11u32) | (
            1u64 << 12u32) | (1u64 << 22u32) | (1u64 << 25u32) | (1u64 << 26u32) | (1u64
                << 27u32),
    ;
    assert forall|t: u32| t < 64 implies (#[trigger] ((mask >> t) & 1) != 0) == tap_handles(t) by {
        lemma_tap_mask_bits(t as u64);
        assert((mask >> t) == (mask >> (t as u64))) by (bit_vector);
    }
    mask
}

/// The event-flag mask of the modifier that a macOS keycode is, if it is one.
pub open spec fn modifier_key_flag(keycode: u32) -> Option<u64> {
    if keycode == 56 || keycode == 60 {
        Some(MAC_FLAG_SHIFT)
    } else if keycode == 59 || keycode == 62 {
        Some(MAC_FLAG_CONTROL)
    } else if keycode == 58 || keycode == 61 {
        Some(MAC_FLAG_OPTION)
    } else if keycode == 55 || keycode == 54 {
        Some(MAC_FLAG_COMMAND)
    } else if keycode == 57 {
        Some(MAC_FLAG_CAPS_LOCK)
    } else {
        None
    }
}

/// The flag a modifier keycode is read by is the flag of the key the keycode
/// names in the key table: both Shift keys by the Shift flag, both Command
/// keys (neutral CTRL) by the Command flag, both Control keys (neutral META)
/// by the Control flag, both Option keys by the Option flag, Caps Lock by its
/// own flag. Every other key in the table has no modifier flag.
pub proof fn lemma_modifier_flags_follow_key_table(nk: u32)
    ensures
        spec_neutral_to_macos_keycode(nk) matches Some(kc) ==> modifier_key_flag(kc) == (
        if nk == NK_SHIFT_LEFT || nk == NK_SHIFT_RIGHT {
            Some(MAC_FLAG_SHIFT)
        } else if nk == NK_CTRL_LEFT || nk == NK_CTRL_RIGHT {
            Some(MAC_FLAG_COMMAND)
        } else if nk == NK_META_LEFT || nk == NK_META_RIGHT {
            Some(MAC_FLAG_CONTROL)
        } else if nk == NK_ALT_LEFT || nk == NK_ALT_RIGHT {
            Some(MAC_FLAG_OPTION)
        } else if nk == NK_CAPS_LOCK {
            Some(MAC_FLAG_CAPS_LOCK)
        } else {
            None
        }),
{
}

/// Whether a flags-changed event is a key press: for a modifier key, when its
/// flag is set after the change; for any other key, always.
pub fn flags_changed_is_press(keycode: u32, flags_raw: u64) -> (pressed: bool)
    ensures
        pressed == match modifier_key_flag(keycode) {
            Some(flag) => flags_raw & flag != 0,
            None => true,
        },
{
    match keycode {
        56 | 60 => flags_raw & MAC_FLAG_SHIFT != 0,
        59 | 62 => flags_raw & MAC_FLAG_CONTROL != 0,
        58 | 61 => flags_raw & MAC_FLAG_OPTION != 0,
        55 | 54 => flags_raw & MAC_FLAG_COMMAND != 0,
        57 => flags_raw & MAC_FLAG_CAPS_LOCK != 0,
        _ => true,
    }
}

// ── Windows low-level hooks ──────────────────────────────────────────

// Window message identifiers.
pub const WM_KEYDOWN: u32 = 0x0100;

pub const WM_KEYUP: u32 = 0x0101;

pub const WM_SYSKEYDOWN: u32 = 0x0104;

pub const WM_SYSKEYUP: u32 = 0x0105;

pub const WM_MOUSEMOVE: u32 = 0x0200;

pub const WM_LBUTTONDOWN: u32 = 0x0201;

pub const WM_LBUTTONUP: u32 = 0x0202;

pub const WM_RBUTTONDOWN: u32 = 0x0204;

pub const WM_RBUTTONUP: u32 = 0x0205;

pub const WM_MBUTTONDOWN: u32 = 0x0207;

pub const WM_MBUTTONUP: u32 = 0x0208;

pub const WM_MOUSEWHEEL: u32 = 0x020A;

/// The wheel delta of one notch.
pub const WHEEL_DELTA: i64 = 120;

/// What a message handed to the low-level mouse hook is.
#[derive(Debug, Clone, Copy, PartialEq, Eq, Structural)]
pub enum HookMouseEvent {
    Move,
    Button { button: MouseButton, pressed: bool },
    Wheel,
    Other,
}

pub open spec fn spec_mouse_message(msg: u32) -> HookMouseEvent {
    if msg == WM_MOUSEMOVE {
        HookMouseEvent::Move
    } else if msg == WM_LBUTTONDOWN {
        HookMouseEvent::Button { button: MouseButton::Left, pressed: true }
    } else if msg == WM_LBUTTONUP {
        HookMouseEvent::Button { button: MouseButton::Left, pressed: false }
    } else if msg == WM_RBUTTONDOWN {
        HookMouseEvent::Button { button: MouseButton::Right, pressed: true }
    } else if msg == WM_RBUTTONUP {
        HookMouseEvent::Button { button: MouseButton::Right, pressed: false }
    } else if msg == WM_MBUTTONDOWN {
        HookMouseEvent::Button { button: MouseButton::Middle, pressed: true }
    } else if msg == WM_MBUTTONUP {
        HookMouseEvent::Button { button: MouseButton::Middle, pressed: false }
    } else if msg == WM_MOUSEWHEEL {
        HookMouseEvent::Wheel
    } else {
        HookMouseEvent::Other
    }
}

/// On the mouse hook, each button's up message is numbered right after its
/// down message; the down message reads as a press of the button and the up
/// message as a release of the same button.
pub proof fn lemma_hook_button_press_then_release(msg: u32)
    ensures
        spec_mouse_message(msg) matches HookMouseEvent::Button { button, pressed: true }
            ==> msg < 0xFFFF_FFFF && spec_mouse_message((msg + 1) as u32)
            == (HookMouseEvent::Button { button, pressed: false }),
        spec_mouse_message(msg) matches HookMouseEvent::Button { button, pressed: false }
            ==> msg > 0 && spec_mouse_message((msg - 1) as u32)
            == (HookMouseEvent::Button { button, pressed: true }),
        spec_mouse_message(WM_LBUTTONDOWN) == (HookMouseEvent::Button {
            button: MouseButton::Left,
            pressed: true,
        }),
        spec_mouse_message(WM_RBUTTONDOWN) == (HookMouseEvent::Button {
            button: MouseButton::Right,
            pressed: true,
        }),
        spec_mouse_message(WM_MBUTTONDOWN) == (HookMouseEvent::Button {
            button: MouseButton::Middle,
            pressed: true,
        }),
        spec_mouse_message(WM_MOUSEMOVE) == HookMouseEvent::Move,
        spec_mouse_message(WM_MOUSEWHEEL) == HookMouseEvent::Wheel,
{
}

/// What a message handed to the low-level mouse hook is.
pub fn classify_mouse_message(msg: u32) -> (e: HookMouseEvent)
    ensures
        e == spec_mouse_message(msg),
{
    match msg {
        WM_MOUSEMOVE => HookMouseEvent::Move,
        WM_LBUTTONDOWN => HookMouseEvent::Button { button: MouseButton::Left, pressed: true },
        WM_LBUTTONUP => HookMouseEvent::Button { button: MouseButton::Left, pressed: false },
        WM_RBUTTONDOWN => HookMouseEvent::Button { button: MouseButton::Right, pressed: true },
        WM_RBUTTONUP => HookMouseEvent::Button { button: MouseButton::Right, pressed: false },
        WM_MBUTTONDOWN => HookMouseEvent::Button { button: MouseButton::Middle, pressed: true },
        WM_MBUTTONUP => HookMouseEvent::Button { button: MouseButton::Middle, pressed: false },
        WM_MOUSEWHEEL => HookMouseEvent::Wheel,
        _ => HookMouseEvent::Other,
    }
}

/// The signed wheel delta in the high word of a hook's `mouseData`.
pub open spec fn wheel_delta(mouse_data: u32) -> int {
    let hi = mouse_data / 65536;
    if hi >= 32768 {
        hi - 65536
    } else {
        hi as int
    }
}

/// Division rounding toward zero, as Rust's integer `/` does.
pub open spec fn div_toward_zero(a: int, b: int) -> int
    recommends
        b > 0,
{
    if a >= 0 {
        a / b
    } else {
        -((-a) / b)
    }
}

/// The whole wheel notches in a hook's `mouseData`: the signed high word over
/// `WHEEL_DELTA`, rounded toward zero.
pub fn wheel_notches(mouse_data: u32) -> (notches: i64)
    ensures
        notches == div_toward_zero(wheel_delta(mouse_data), WHEEL_DELTA as int),
{
    let hi: u32 = mouse_data >> 16;
    #[verifier::truncate]
    let delta: i16 = hi as i16;
    assert(hi == mouse_data / 65536) by (bit_vector)
        requires
            hi == mouse_data >> 16,
    ;
    assert(delta as int == (if hi >= 32768 {
        hi - 65536
    } else {
        hi as int
    })) by (bit_vector)
        requires
            hi < 65536,
            delta == hi as i16,
    ;
    let d = delta as i64;
    if d >= 0 {
        d / WHEEL_DELTA
    } else {
        -((-d) / WHEEL_DELTA)
    }
}

/// Whether a message handed to the low-level keyboard hook is a key going
/// down (`Some(true)`), a key coming up (`Some(false)`), or neither.
pub fn classify_key_message(msg: u32) -> (r: Option<bool>)
    ensures
        r == (if msg == WM_KEYDOWN || msg == WM_SYSKEYDOWN {
            Some(true)
        } else if msg == WM_KEYUP || msg == WM_SYSKEYUP {
            Some(false)
        } else {
            None
        }),
{
    match msg {
        WM_KEYDOWN | WM_SYSKEYDOWN => Some(true),
        WM_KEYUP | WM_SYSKEYUP => Some(false),
        _ => None,
    }
}

} // verus!
