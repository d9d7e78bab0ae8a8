//! The decisions of a running session, apart from the I/O that surrounds them.
//!
//! A client reads messages from the server and turns each into an action for
//! its input synthesizer, acting on pointer moves by absolute position before
//! the server first takes control, by deltas while it controls the client, and
//! not at all once it has taken control back; a server watches its peer's messages for mode
//! changes, watches its own keyboard for the double-tap hotkey, and toggles
//! between controlling itself (LOCAL) and the client (REMOTE).
use crate::keymap::{
    macos_keycode_to_neutral, neutral_to_macos_keycode, neutral_to_windows_vk,
    spec_macos_keycode_to_neutral, spec_neutral_to_macos_keycode, spec_neutral_to_windows_vk,
    spec_windows_vk_to_neutral, windows_vk_to_neutral, NK_SHIFT_LEFT,
};
use crate::protocol::MouseButton;
use crate::state::InputMode;
use vstd::prelude::*;

verus! {

/// The platform a machine runs on, which decides its keycode table.
#[derive(Debug, Clone, Copy, PartialEq, Eq, Structural)]
pub enum Platform {
    MacOs,
    Windows,
}

// ── Keycodes of this machine ─────────────────────────────────────────

/// The platform keycode that stands for a neutral key.
pub open spec fn spec_neutral_to_local(platform: Platform, nk: u32) -> Option<u32> {
    match platform {
        Platform::MacOs => spec_neutral_to_macos_keycode(nk),
        Platform::Windows => spec_neutral_to_windows_vk(nk),
    }
}

/// The neutral key that a platform keycode stands for.
pub open spec fn spec_local_to_neutral(platform: Platform, keycode: u32) -> Option<u32> {
    match platform {
        Platform::MacOs => spec_macos_keycode_to_neutral(keycode),
        Platform::Windows => spec_windows_vk_to_neutral(keycode),
    }
}

/// The keycode to synthesize on this machine for a neutral key.
pub fn neutral_to_local_keycode(platform: Platform, neutral_key: u32) -> (r: Option<u16>)
    ensures
        r is Some <==> spec_neutral_to_local(platform, neutral_key) is Some,
        r matches Some(kc) ==> kc as u32 == spec_neutral_to_local(platform, neutral_key)->0,
{
    proof {
        crate::keymap::lemma_table_codes_fit(neutral_key);
    }
    let code = match platform {
        Platform::MacOs => neutral_to_macos_keycode(neutral_key),
        Platform::Windows => neutral_to_windows_vk(neutral_key),
    };
    match code {
        Some(k) => Some(k as u16),
        None => None,
    }
}

/// The neutral key for a keycode captured on this machine.
pub fn to_neutral_key(platform: Platform, keycode: u32) -> (r: Option<u32>)
    ensures
        r == spec_local_to_neutral(platform, keycode),
{
    match platform {
        Platform::MacOs => macos_keycode_to_neutral(keycode),
        Platform::Windows => windows_vk_to_neutral(keycode),
    }
}

// ── Client session ───────────────────────────────────────────────────

/// A message from the server as the client's input synthesis reads it:
/// positions and deltas are in whole pixels.
#[derive(Debug, Clone, Copy, PartialEq, Eq, Structural)]
pub enum RemoteInput {
    MouseMove { x: i32, y: i32 },
    MouseButton { button: MouseButton, pressed: bool },
    Wheel { dx: i64, dy: i64 },
    KeyDown { key: u32, modifiers: u8 },
    KeyUp { key: u32, modifiers: u8 },
    ScreenEnter { x: i32, y: i32 },
    ScreenLeave,
}

/// Whether a pointer position is absolute or relative to the current one.
#[derive(Debug, Clone, Copy, PartialEq, Eq, Structural)]
pub enum Coordinate {
    Abs,
    Rel,
}

#[derive(Debug, Clone, Copy, PartialEq, Eq, Structural)]
pub enum Direction {
    Press,
    Release,
}

/// What the client does with one message.
#[derive(Debug, Clone, Copy, PartialEq, Eq, Structural)]
pub enum ClientAction {
    MoveMouse { x: i32, y: i32, coordinate: Coordinate },
    Button { button: MouseButton, direction: Direction },
    /// Scroll by these many notches: `dx` horizontally, `dy` vertically.
    Scroll { dx: i32, dy: i32 },
    RawKey { keycode: u16, direction: Direction },
    /// The server hands control over: put the pointer at (x, y) and enter REMOTE mode.
    EnterRemote { x: i32, y: i32 },
    /// The server takes control back: enter LOCAL mode.
    LeaveRemote,
    /// Nothing to do: a key with no keycode on this machine, or a mouse
    /// event after the server has taken control back.
    Ignore,
}

/// Where a client stands towards the server's control.
#[derive(Debug, Clone, Copy, PartialEq, Eq, Structural)]
pub enum Control {
    /// No ScreenEnter yet: pointer positions are absolute (the connection test).
    NeverControlled,
    /// Between a ScreenEnter and the next ScreenLeave: pointer moves are deltas.
    Controlled,
    /// After a ScreenLeave, until the next ScreenEnter: mouse events (moves,
    /// buttons, wheel) are not acted on.
    Released,
}

/// A client's session: which table it synthesizes keys with, and where it
/// stands towards the server's control.
#[derive(Debug, Clone, Copy, PartialEq, Eq, Structural)]
pub struct ClientSession {
    pub platform: Platform,
    pub control: Control,
}

pub open spec fn direction_of(pressed: bool) -> Direction {
    if pressed {
        Direction::Press
    } else {
        Direction::Release
    }
}

pub open spec fn key_action(platform: Platform, key: u32, direction: Direction) -> ClientAction {
    match spec_neutral_to_local(platform, key) {
        Some(kc) => ClientAction::RawKey { keycode: kc as u16, direction },
        None => ClientAction::Ignore,
    }
}

/// What a pointer move does in each control state.
pub open spec fn move_action(control: Control, x: i32, y: i32) -> ClientAction {
    match control {
        Control::NeverControlled => ClientAction::MoveMouse { x, y, coordinate: Coordinate::Abs },
        Control::Controlled => ClientAction::MoveMouse { x, y, coordinate: Coordinate::Rel },
        Control::Released => ClientAction::Ignore,
    }
}

/// One step of a client session: the session after `input`, and the action.
pub open spec fn spec_client_step(s: ClientSession, input: RemoteInput) -> (
    ClientSession,
    ClientAction,
) {
    match input {
        RemoteInput::MouseMove { x, y } => (s, move_action(s.control, x, y)),
        RemoteInput::MouseButton { button, pressed } => (
            s,
            if s.control == Control::Released {
                ClientAction::Ignore
            } else {
                ClientAction::Button { button, direction: direction_of(pressed) }
            },
        ),
        RemoteInput::Wheel { dx, dy } => (
            s,
            if s.control == Control::Released {
                ClientAction::Ignore
            } else {
                ClientAction::Scroll { dx: dx as i32, dy: dy as i32 }
            },
        ),
        RemoteInput::KeyDown { key, modifiers } => (
            s,
            key_action(s.platform, key, Direction::Press),
        ),
        RemoteInput::KeyUp { key, modifiers } => (
            s,
            key_action(s.platform, key, Direction::Release),
        ),
        RemoteInput::ScreenEnter { x, y } => (
            ClientSession { control: Control::Controlled, ..s },
            ClientAction::EnterRemote { x, y },
        ),
        RemoteInput::ScreenLeave => (
            ClientSession { control: Control::Released, ..s },
            ClientAction::LeaveRemote,
        ),
    }
}

/// The session after each of `inputs` in turn.
pub open spec fn spec_client_run(s: ClientSession, inputs: Seq<RemoteInput>) -> ClientSession
    decreases inputs.len(),
{
    if inputs.len() == 0 {
        s
    } else {
        spec_client_run(spec_client_step(s, inputs[0]).0, inputs.drop_first())
    }
}

impl ClientSession {
    /// A session that the server has not yet taken control of.
    pub fn new(platform: Platform) -> (s: ClientSession)
        ensures
            s.platform == platform,
            s.control == Control::NeverControlled,
    {
        ClientSession { platform, control: Control::NeverControlled }
    }

    /// Whether the server controls this machine now.
    pub fn is_controlled(&self) -> (r: bool)
        ensures
            r == (self.control == Control::Controlled),
    {
        match self.control {
            Control::Controlled => true,
            _ => false,
        }
    }

    /// Decide what to do with one message from the server.
    pub fn handle(&mut self, input: RemoteInput) -> (action: ClientAction)
        ensures
            (*final(self), action) == spec_client_step(*old(self), input),
    {
        match input {
            RemoteInput::MouseMove { x, y } => match self.control {
                Control::NeverControlled => ClientAction::MoveMouse {
                    x,
                    y,
                    coordinate: Coordinate::Abs,
                },
                Control::Controlled => ClientAction::MoveMouse {
                    x,
                    y,
                    coordinate: Coordinate::Rel,
                },
                Control::Released => ClientAction::Ignore,
            },
            RemoteInput::MouseButton { button, pressed } => {
                if self.control == Control::Released {
                    return ClientAction::Ignore;
                }
                let direction = if pressed {
                    Direction::Press
                } else {
                    Direction::Release
                };
                ClientAction::Button { button, direction }
            },
            RemoteInput::Wheel { dx, dy } => {
                if self.control == Control::Released {
                    return ClientAction::Ignore;
                }
                #[verifier::truncate]
                let h = dx as i32;
                #[verifier::truncate]
                let v = dy as i32;
                ClientAction::Scroll { dx: h, dy: v }
            },
            RemoteInput::KeyDown { key, modifiers: _ } => {
                match neutral_to_local_keycode(self.platform, key) {
                    Some(keycode) => ClientAction::RawKey { keycode, direction: Direction::Press },
                    None => ClientAction::Ignore,
                }
            },
            RemoteInput::KeyUp { key, modifiers: _ } => {
                match neutral_to_local_keycode(self.platform, key) {
                    Some(keycode) => ClientAction::RawKey {
                        keycode,
                        direction: Direction::Release,
                    },
                    None => ClientAction::Ignore,
                }
            },
            RemoteInput::ScreenEnter { x, y } => {
                self.control = Control::Controlled;
                ClientAction::EnterRemote { x, y }
            },
            RemoteInput::ScreenLeave => {
                self.control = Control::Released;
                ClientAction::LeaveRemote
            },
        }
    }
}

/// Whether a message is a mouse event: a move, a button or the wheel.
pub open spec fn is_mouse_event(input: RemoteInput) -> bool {
    input is MouseMove || input is MouseButton || input is Wheel
}

/// The control state after `inputs`: set by the last ScreenEnter or
/// ScreenLeave among them, `initial` when there is neither.
pub open spec fn control_after(initial: Control, inputs: Seq<RemoteInput>) -> Control
    decreases inputs.len(),
{
    if inputs.len() == 0 {
        initial
    } else {
        match inputs.last() {
            RemoteInput::ScreenEnter { .. } => Control::Controlled,
            RemoteInput::ScreenLeave => Control::Released,
            _ => control_after(initial, inputs.drop_last()),
        }
    }
}

proof fn lemma_client_run_push(s: ClientSession, inputs: Seq<RemoteInput>, input: RemoteInput)
    ensures
        spec_client_run(s, inputs.push(input)) == spec_client_step(
            spec_client_run(s, inputs),
            input,
        ).0,
    decreases inputs.len(),
{
    if inputs.len() == 0 {
        assert(inputs.push(input).drop_first() =~= Seq::<RemoteInput>::empty());
        assert(inputs.push(input)[0] == input);
        assert(spec_client_run(spec_client_step(s, input).0, Seq::<RemoteInput>::empty())
            == spec_client_step(s, input).0);
    } else {
        assert(inputs.push(input).drop_first() =~= inputs.drop_first().push(input));
        assert(inputs.push(input)[0] == inputs[0]);
        lemma_client_run_push(spec_client_step(s, inputs[0]).0, inputs.drop_first(), input);
    }
}

/// After any messages, a pointer move is absolute while the server has never
/// taken control (no ScreenEnter yet), relative while it controls the client
/// (the last ScreenEnter or ScreenLeave was a ScreenEnter), and not acted on
/// once it has taken control back (the last of them was a ScreenLeave); a
/// mouse event of any kind is ignored exactly in that last case. The
/// platform never changes.
pub proof fn lemma_client_pointer_follows_control(
    s: ClientSession,
    inputs: Seq<RemoteInput>,
    x: i32,
    y: i32,
)
    ensures
        spec_client_run(s, inputs).control == control_after(s.control, inputs),
        spec_client_run(s, inputs).platform == s.platform,
        spec_client_step(spec_client_run(s, inputs), RemoteInput::MouseMove { x, y }).1
            == move_action(control_after(s.control, inputs), x, y),
        forall|event: RemoteInput|
            is_mouse_event(event) ==> ((#[trigger] spec_client_step(
                spec_client_run(s, inputs),
                event,
            ).1 == ClientAction::Ignore) <==> control_after(s.control, inputs)
                == Control::Released),
    decreases inputs.len(),
{
    if inputs.len() > 0 {
        let prefix = inputs.drop_last();
        lemma_client_pointer_follows_control(s, prefix, x, y);
        lemma_client_run_push(s, prefix, inputs.last());
        assert(prefix.push(inputs.last()) =~= inputs);
    }
}

/// A new session moves the pointer to absolute positions until the first
/// ScreenEnter, by deltas until the next ScreenLeave, and not at all after
/// it until another ScreenEnter; after that ScreenLeave it also ignores
/// buttons and the wheel.
pub proof fn lemma_client_enter_leave(
    platform: Platform,
    ex: i32,
    ey: i32,
    x: i32,
    y: i32,
    button: MouseButton,
    pressed: bool,
    dx: i64,
    dy: i64,
)
    ensures
        ({
            let s0 = ClientSession { platform, control: Control::NeverControlled };
            let s1 = spec_client_step(s0, RemoteInput::ScreenEnter { x: ex, y: ey }).0;
            let s2 = spec_client_step(s1, RemoteInput::ScreenLeave).0;
            &&& spec_client_step(s0, RemoteInput::MouseMove { x, y }).1 == (ClientAction::MoveMouse {
                x,
                y,
                coordinate: Coordinate::Abs,
            })
            &&& spec_client_step(s1, RemoteInput::MouseMove { x, y }).1 == (ClientAction::MoveMouse {
                x,
                y,
                coordinate: Coordinate::Rel,
            })
            &&& spec_client_step(s2, RemoteInput::MouseMove { x, y }).1 == ClientAction::Ignore
            &&& spec_client_step(s2, RemoteInput::MouseButton { button, pressed }).1
                == ClientAction::Ignore
            &&& spec_client_step(s2, RemoteInput::Wheel { dx, dy }).1 == ClientAction::Ignore
            &&& spec_client_step(s1, RemoteInput::MouseButton { button, pressed }).1
                == (ClientAction::Button { button, direction: direction_of(pressed) })
            &&& spec_client_step(
                spec_client_step(s2, RemoteInput::ScreenEnter { x: ex, y: ey }).0,
                RemoteInput::MouseMove { x, y },
            ).1 == (ClientAction::MoveMouse { x, y, coordinate: Coordinate::Rel })
        }),
{
}

/// Keys are synthesized in every control state: a KeyDown of a key with a
/// keycode here presses that keycode and the KeyUp releases the same keycode;
/// a key with no keycode here is ignored both ways. Neither changes the session.
pub proof fn lemma_client_keys_press_then_release(
    s: ClientSession,
    control: Control,
    key: u32,
    down_mods: u8,
    up_mods: u8,
)
    ensures
        ({
            let t = ClientSession { control, ..s };
            let down = spec_client_step(t, RemoteInput::KeyDown { key, modifiers: down_mods });
            let up = spec_client_step(t, RemoteInput::KeyUp { key, modifiers: up_mods });
            &&& down.0 == t
            &&& up.0 == t
            &&& match spec_neutral_to_local(s.platform, key) {
                Some(kc) => {
                    &&& down.1 matches ClientAction::RawKey { keycode, direction }
                        && keycode == kc && direction == Direction::Press
                    &&& up.1 matches ClientAction::RawKey { keycode, direction }
                        && keycode == kc && direction == Direction::Release
                },
                None => down.1 == ClientAction::Ignore && up.1 == ClientAction::Ignore,
            }
        }),
{
    crate::keymap::lemma_table_codes_fit(key);
}

/// Until the server takes control back, a button message presses the button
/// when `pressed` and releases it otherwise, and the wheel scrolls by its two
/// deltas; neither changes the session.
pub proof fn lemma_client_buttons_and_wheel(
    s: ClientSession,
    button: MouseButton,
    pressed: bool,
    dx: i64,
    dy: i64,
)
    requires
        s.control != Control::Released,
    ensures
        spec_client_step(s, RemoteInput::MouseButton { button, pressed }).0 == s,
        spec_client_step(s, RemoteInput::MouseButton { button, pressed }).1 matches
            ClientAction::Button { button: b, direction } && b == button && (direction
            == Direction::Press <==> pressed),
        spec_client_step(s, RemoteInput::Wheel { dx, dy }).0 == s,
        spec_client_step(s, RemoteInput::Wheel { dx, dy }).1 matches ClientAction::Scroll {
            dx: h,
            dy: v,
        } && (-0x8000_0000 <= dx < 0x8000_0000 ==> h == dx) && (-0x8000_0000 <= dy
            < 0x8000_0000 ==> v == dy),
{
}

// ── Server side ──────────────────────────────────────────────────────

/// The mode a server enters on a message from its peer: REMOTE on
/// ScreenEnter, LOCAL on ScreenLeave; other messages change nothing.
pub fn mode_change_from_peer(input: &RemoteInput) -> (r: Option<InputMode>)
    ensures
        r == match *input {
            RemoteInput::ScreenEnter { .. } => Some(InputMode::Remote),
            RemoteInput::ScreenLeave => Some(InputMode::Local),
            _ => None::<InputMode>,
        },
{
    match input {
        RemoteInput::ScreenEnter { .. } => Some(InputMode::Remote),
        RemoteInput::ScreenLeave => Some(InputMode::Local),
        _ => None,
    }
}

/// The message a server sends when its mode toggles.
#[derive(Debug, Clone, Copy, PartialEq, Eq, Structural)]
pub enum ModeSwitch {
    /// ScreenEnter at the origin: the client takes over.
    EnterRemote,
    /// ScreenLeave: control returns to the server.
    ReturnLocal,
}

pub open spec fn spec_toggle(mode: InputMode) -> (InputMode, ModeSwitch) {
    match mode {
        InputMode::Local => (InputMode::Remote, ModeSwitch::EnterRemote),
        InputMode::Remote => (InputMode::Local, ModeSwitch::ReturnLocal),
    }
}

/// Toggle between LOCAL and REMOTE, with the message that tells the client.
pub fn toggle_input_mode(mode: InputMode) -> (r: (InputMode, ModeSwitch))
    ensures
        r == spec_toggle(mode),
{
    let new_mode = if mode == InputMode::Local {
        InputMode::Remote
    } else {
        InputMode::Local
    };
    if new_mode == InputMode::Remote {
        (new_mode, ModeSwitch::EnterRemote)
    } else {
        (new_mode, ModeSwitch::ReturnLocal)
    }
}

/// Toggling twice restores the mode, and the two messages undo each other.
pub proof fn lemma_toggle_twice(mode: InputMode)
    ensures
        spec_toggle(spec_toggle(mode).0).0 == mode,
        spec_toggle(mode).1 != spec_toggle(spec_toggle(mode).0).1,
{
}

// ── Hotkey: double tap of Left Shift ─────────────────────────────────

/// Two releases of Left Shift closer than this (in nanoseconds) make the hotkey.
pub const DOUBLE_TAP_WINDOW_NANOS: u64 = 400_000_000;

/// The Left Shift keycode on each platform.
pub open spec fn spec_left_shift(platform: Platform) -> u32 {
    match platform {
        Platform::MacOs => 0x38,
        Platform::Windows => 0xA0,
    }
}

/// The hotkey watches the keycode that the key table gives the left Shift key
/// on each platform.
pub proof fn lemma_left_shift_is_table_key(platform: Platform)
    ensures
        spec_neutral_to_local(platform, NK_SHIFT_LEFT) == Some(spec_left_shift(platform)),
{
}

/// Watches Left Shift releases for a double tap. `last_tap` is the time, in
/// nanoseconds on a monotonic clock, of a release that still waits for its pair.
#[derive(Debug, Clone, Copy, PartialEq, Eq, Structural)]
pub struct HotkeyTracker {
    pub last_tap: Option<u64>,
}

/// One key release seen by the tracker: the tracker after it, and whether it
/// completes a double tap.
pub open spec fn spec_hotkey_step(t: HotkeyTracker, platform: Platform, keycode: u32, now: u64) -> (
    HotkeyTracker,
    bool,
) {
    if keycode != spec_left_shift(platform) {
        (t, false)
    } else {
        match t.last_tap {
            Some(prev) if (if now >= prev {
                now - prev
            } else {
                0
            }) < DOUBLE_TAP_WINDOW_NANOS => (HotkeyTracker { last_tap: None }, true),
            _ => (HotkeyTracker { last_tap: Some(now) }, false),
        }
    }
}

impl HotkeyTracker {
    pub fn new() -> (t: HotkeyTracker)
        ensures
            t.last_tap is None,
    {
        HotkeyTracker { last_tap: None }
    }

    /// A key was released at `now`: is this the second of two quick Left
    /// Shift releases? A completed double tap is forgotten, so a third quick
    /// release starts a new one instead of firing again.
    pub fn on_key_up(&mut self, platform: Platform, keycode: u32, now: u64) -> (fired: bool)
        ensures
            (*final(self), fired) == spec_hotkey_step(*old(self), platform, keycode, now),
    {
        let left_shift: u32 = match platform {
            Platform::MacOs => 0x38,
            Platform::Windows => 0xA0,
        };
        if keycode != left_shift {
            return false;
        }
        if let Some(prev) = self.last_tap {
            if now.saturating_sub(prev) < DOUBLE_TAP_WINDOW_NANOS {
                self.last_tap = None;
                return true;
            }
        }
        self.last_tap = Some(now);
        false
    }
}

/// A double tap fires, and the release right after it never does: three quick
/// taps toggle once.
pub proof fn lemma_hotkey_no_triple_trigger(
    t: HotkeyTracker,
    platform: Platform,
    k1: u32,
    t1: u64,
    k2: u32,
    t2: u64,
)
    requires
        spec_hotkey_step(t, platform, k1, t1).1,
    ensures
        !spec_hotkey_step(spec_hotkey_step(t, platform, k1, t1).0, platform, k2, t2).1,
{
}

/// Two releases of Left Shift fire the hotkey exactly when the second comes
/// less than `DOUBLE_TAP_WINDOW_NANOS` after the first, starting from a tracker
/// with no release waiting.
pub proof fn lemma_hotkey_double_tap(platform: Platform, t1: u64, t2: u64)
    requires
        t1 <= t2,
    ensures
        ({
            let k = spec_left_shift(platform);
            let first = spec_hotkey_step(HotkeyTracker { last_tap: None }, platform, k, t1);
            &&& !first.1
            &&& spec_hotkey_step(first.0, platform, k, t2).1 == (t2 - t1
                < DOUBLE_TAP_WINDOW_NANOS)
        }),
{
}

} // verus!
