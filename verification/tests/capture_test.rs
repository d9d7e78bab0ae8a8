use deskserver::capture::{
    classify_key_message, classify_mouse_message, classify_tap_event, flags_changed_is_press,
    tap_event_mask, wheel_notches, HookMouseEvent, TapEvent,
};
use deskserver::protocol::MouseButton;

#[test]
fn tap_event_types() {
    assert_eq!(classify_tap_event(5), TapEvent::MouseMove);
    assert_eq!(classify_tap_event(6), TapEvent::MouseMove);
    assert_eq!(classify_tap_event(27), TapEvent::MouseMove);
    assert_eq!(
        classify_tap_event(3),
        TapEvent::MouseButton { button: MouseButton::Right, pressed: true }
    );
    assert_eq!(
        classify_tap_event(26),
        TapEvent::MouseButton { button: MouseButton::Middle, pressed: false }
    );
    assert_eq!(classify_tap_event(22), TapEvent::ScrollWheel);
    assert_eq!(classify_tap_event(10), TapEvent::KeyDown);
    assert_eq!(classify_tap_event(11), TapEvent::KeyUp);
    assert_eq!(classify_tap_event(12), TapEvent::FlagsChanged);
    assert_eq!(classify_tap_event(0xFFFF_FFFE), TapEvent::TapDisabled);
    assert_eq!(classify_tap_event(0), TapEvent::Other);
}

#[test]
fn tap_mask_has_handled_types() {
    let mask = tap_event_mask();
    assert_eq!(mask, 0x0E40_1CFE);
    for t in 0u32..64 {
        let handled = !matches!(classify_tap_event(t), TapEvent::Other | TapEvent::TapDisabled);
        assert_eq!((mask >> t) & 1 == 1, handled, "event type {}", t);
    }
}

#[test]
fn flags_changed_press_or_release() {
    assert!(flags_changed_is_press(56, 0x020000)); // left shift down
    assert!(!flags_changed_is_press(60, 0x100000)); // right shift up, command held
    assert!(flags_changed_is_press(55, 0x100000)); // command down
    assert!(!flags_changed_is_press(59, 0)); // control up
    assert!(flags_changed_is_press(57, 0x010000)); // caps lock on
    assert!(flags_changed_is_press(0, 0)); // not a modifier
}

#[test]
fn windows_mouse_messages() {
    assert_eq!(classify_mouse_message(0x0200), HookMouseEvent::Move);
    assert_eq!(
        classify_mouse_message(0x0201),
        HookMouseEvent::Button { button: MouseButton::Left, pressed: true }
    );
    assert_eq!(
        classify_mouse_message(0x0205),
        HookMouseEvent::Button { button: MouseButton::Right, pressed: false }
    );
    assert_eq!(classify_mouse_message(0x020A), HookMouseEvent::Wheel);
    assert_eq!(classify_mouse_message(0x020E), HookMouseEvent::Other);
}

#[test]
fn wheel_notches_round_toward_zero() {
    assert_eq!(wheel_notches(120 << 16), 1);
    assert_eq!(wheel_notches(240 << 16), 2);
    assert_eq!(wheel_notches(((-120i16) as u16 as u32) << 16), -1);
    assert_eq!(wheel_notches(((-119i16) as u16 as u32) << 16), 0);
    assert_eq!(wheel_notches(((-360i16) as u16 as u32) << 16 | 0xFFFF), -3);
    assert_eq!(wheel_notches(0x0000_FFFF), 0);
    for d in [-32768i32, -241, -121, -1, 0, 1, 119, 121, 32767] {
        let data = ((d as i16) as u16 as u32) << 16;
        assert_eq!(wheel_notches(data), (d as i16) as i64 / 120);
    }
}

#[test]
fn windows_key_messages() {
    assert_eq!(classify_key_message(0x0100), Some(true));
    assert_eq!(classify_key_message(0x0104), Some(true));
    assert_eq!(classify_key_message(0x0101), Some(false));
    assert_eq!(classify_key_message(0x0105), Some(false));
    assert_eq!(classify_key_message(0x0102), None);
}
