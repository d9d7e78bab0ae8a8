use deskserver::keymap::{NK_A, NK_CTRL_LEFT};
use deskserver::protocol::MouseButton;
use deskserver::session::{
    mode_change_from_peer, neutral_to_local_keycode, to_neutral_key, toggle_input_mode,
    ClientAction, ClientSession, Control, Coordinate, Direction, HotkeyTracker, ModeSwitch, Platform,
    RemoteInput, DOUBLE_TAP_WINDOW_NANOS,
};
use deskserver::state::InputMode;

#[test]
fn client_moves_absolute_until_screen_enter() {
    let mut s = ClientSession::new(Platform::Windows);
    assert_eq!(
        s.handle(RemoteInput::MouseMove { x: 100, y: 100 }),
        ClientAction::MoveMouse { x: 100, y: 100, coordinate: Coordinate::Abs }
    );
    assert_eq!(
        s.handle(RemoteInput::ScreenEnter { x: 1919, y: 540 }),
        ClientAction::EnterRemote { x: 1919, y: 540 }
    );
    assert_eq!(s.control, Control::Controlled);
    assert!(s.is_controlled());
    assert_eq!(
        s.handle(RemoteInput::MouseMove { x: -3, y: 2 }),
        ClientAction::MoveMouse { x: -3, y: 2, coordinate: Coordinate::Rel }
    );
    assert_eq!(s.handle(RemoteInput::ScreenLeave), ClientAction::LeaveRemote);
    assert_eq!(s.control, Control::Released);
    assert!(!s.is_controlled());
    // Once released, mouse events are left to the local user.
    assert_eq!(s.handle(RemoteInput::MouseMove { x: 5, y: 5 }), ClientAction::Ignore);
    assert_eq!(
        s.handle(RemoteInput::MouseButton { button: MouseButton::Left, pressed: true }),
        ClientAction::Ignore
    );
    assert_eq!(s.handle(RemoteInput::Wheel { dx: 1, dy: 2 }), ClientAction::Ignore);
    // Keys still reach this machine.
    assert_eq!(
        s.handle(RemoteInput::KeyDown { key: NK_A, modifiers: 0 }),
        ClientAction::RawKey { keycode: 0x41, direction: Direction::Press }
    );
    // A new entry hands the pointer back to the server.
    assert_eq!(
        s.handle(RemoteInput::ScreenEnter { x: 0, y: 10 }),
        ClientAction::EnterRemote { x: 0, y: 10 }
    );
    assert_eq!(
        s.handle(RemoteInput::MouseMove { x: 4, y: -1 }),
        ClientAction::MoveMouse { x: 4, y: -1, coordinate: Coordinate::Rel }
    );
}

#[test]
fn client_buttons_wheel_and_keys() {
    let mut s = ClientSession::new(Platform::Windows);
    assert_eq!(
        s.handle(RemoteInput::MouseButton { button: MouseButton::Left, pressed: true }),
        ClientAction::Button { button: MouseButton::Left, direction: Direction::Press }
    );
    assert_eq!(
        s.handle(RemoteInput::MouseButton { button: MouseButton::Middle, pressed: false }),
        ClientAction::Button { button: MouseButton::Middle, direction: Direction::Release }
    );
    assert_eq!(
        s.handle(RemoteInput::Wheel { dx: -3, dy: 5 }),
        ClientAction::Scroll { dx: -3, dy: 5 }
    );
    // Both deltas are narrowed to i32 by truncation, as a cast does.
    assert_eq!(
        s.handle(RemoteInput::Wheel { dx: (1i64 << 32) - 2, dy: (1i64 << 32) + 7 }),
        ClientAction::Scroll { dx: -2, dy: 7 }
    );
    assert_eq!(
        s.handle(RemoteInput::KeyDown { key: NK_CTRL_LEFT, modifiers: 0x02 }),
        ClientAction::RawKey { keycode: 0xA2, direction: Direction::Press }
    );
    assert_eq!(
        s.handle(RemoteInput::KeyUp { key: NK_A, modifiers: 0 }),
        ClientAction::RawKey { keycode: 0x41, direction: Direction::Release }
    );
    assert_eq!(s.handle(RemoteInput::KeyDown { key: 9999, modifiers: 0 }), ClientAction::Ignore);

    let mut mac = ClientSession::new(Platform::MacOs);
    assert_eq!(
        mac.handle(RemoteInput::KeyDown { key: NK_CTRL_LEFT, modifiers: 0x02 }),
        ClientAction::RawKey { keycode: 0x37, direction: Direction::Press }
    );
}

#[test]
fn local_keycodes_per_platform() {
    assert_eq!(neutral_to_local_keycode(Platform::MacOs, NK_A), Some(0x00));
    assert_eq!(neutral_to_local_keycode(Platform::Windows, NK_A), Some(0x41));
    assert_eq!(neutral_to_local_keycode(Platform::Windows, 0), None);
    assert_eq!(to_neutral_key(Platform::MacOs, 0x37), Some(NK_CTRL_LEFT));
    assert_eq!(to_neutral_key(Platform::Windows, 0xA2), Some(NK_CTRL_LEFT));
    assert_eq!(to_neutral_key(Platform::Windows, 0xFF), None);
}

#[test]
fn peer_messages_change_server_mode() {
    assert_eq!(mode_change_from_peer(&RemoteInput::ScreenEnter { x: 0, y: 0 }), Some(InputMode::Remote));
    assert_eq!(mode_change_from_peer(&RemoteInput::ScreenLeave), Some(InputMode::Local));
    assert_eq!(mode_change_from_peer(&RemoteInput::MouseMove { x: 1, y: 1 }), None);
}

#[test]
fn toggle_flips_mode_and_message() {
    assert_eq!(toggle_input_mode(InputMode::Local), (InputMode::Remote, ModeSwitch::EnterRemote));
    assert_eq!(toggle_input_mode(InputMode::Remote), (InputMode::Local, ModeSwitch::ReturnLocal));
    let (m, _) = toggle_input_mode(InputMode::Local);
    assert_eq!(toggle_input_mode(m).0, InputMode::Local);
}

#[test]
fn double_tap_left_shift_fires_once() {
    let ms = 1_000_000u64;
    let mut t = HotkeyTracker::new();
    assert!(!t.on_key_up(Platform::MacOs, 0x38, 1000 * ms));
    assert!(t.on_key_up(Platform::MacOs, 0x38, 1200 * ms));
    // A third quick release starts over instead of firing again.
    assert!(!t.on_key_up(Platform::MacOs, 0x38, 1300 * ms));
    assert!(t.on_key_up(Platform::MacOs, 0x38, 1350 * ms));
}

#[test]
fn slow_taps_and_other_keys_do_not_fire() {
    let mut t = HotkeyTracker::new();
    assert!(!t.on_key_up(Platform::Windows, 0xA0, 0));
    assert!(!t.on_key_up(Platform::Windows, 0xA0, DOUBLE_TAP_WINDOW_NANOS));
    assert_eq!(t.last_tap, Some(DOUBLE_TAP_WINDOW_NANOS));
    assert!(t.on_key_up(Platform::Windows, 0xA0, 2 * DOUBLE_TAP_WINDOW_NANOS - 1));
    // Right Shift, or the macOS Left Shift code on Windows, is no hotkey.
    assert!(!t.on_key_up(Platform::Windows, 0xA1, 0));
    assert!(!t.on_key_up(Platform::Windows, 0x38, 0));
    assert_eq!(t.last_tap, None);
}
