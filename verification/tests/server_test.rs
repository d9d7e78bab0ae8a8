use deskserver::server::{ServerAction, ServerConfig, ServerEvent, ServerSession};
use deskserver::state::InputMode;

const CLI: ServerConfig = ServerConfig { settle_moves: 2, track_quiet_moves: true };
const TEST: ServerConfig = ServerConfig { settle_moves: 0, track_quiet_moves: false };

fn mv(at_crossing_edge: bool, past_return_edge: bool, significant: bool) -> ServerEvent {
    ServerEvent::Move { at_crossing_edge, past_return_edge, significant }
}

#[test]
fn server_crosses_and_settles() {
    let mut s = ServerSession::new();
    assert_eq!(s.mode, InputMode::Local);
    assert_eq!(s.step(CLI, mv(false, false, true)), ServerAction::PassThrough);
    assert_eq!(s.step(CLI, ServerEvent::Other), ServerAction::PassThrough);
    assert_eq!(s.step(CLI, mv(true, false, true)), ServerAction::CrossToRemote);
    assert_eq!(s, ServerSession { mode: InputMode::Remote, skip_moves: 2 });
    // The two moves after the crossing are swallowed, even past the edge.
    assert_eq!(s.step(CLI, mv(false, true, true)), ServerAction::Suppress);
    assert_eq!(s.step(CLI, ServerEvent::Other), ServerAction::Forward);
    assert_eq!(s.step(CLI, mv(false, true, true)), ServerAction::Suppress);
    assert_eq!(s.mode, InputMode::Remote);
    assert_eq!(s.step(CLI, mv(false, false, true)), ServerAction::TrackMove { forward: true });
    assert_eq!(s.step(CLI, mv(false, false, false)), ServerAction::TrackMove { forward: false });
    assert_eq!(s.step(CLI, mv(false, true, false)), ServerAction::CrossToLocal);
    assert_eq!(s, ServerSession { mode: InputMode::Local, skip_moves: 2 });
    // Back home, the next two moves pass through without an edge check.
    assert_eq!(s.step(CLI, mv(true, false, true)), ServerAction::PassThrough);
    assert_eq!(s.step(CLI, mv(true, false, true)), ServerAction::PassThrough);
    assert_eq!(s.step(CLI, mv(true, false, true)), ServerAction::CrossToRemote);
}

#[test]
fn server_hotkey_toggles_and_is_held_back() {
    let mut s = ServerSession::new();
    assert_eq!(s.step(CLI, ServerEvent::Hotkey), ServerAction::HotkeyEnter);
    assert_eq!(s, ServerSession { mode: InputMode::Remote, skip_moves: 0 });
    assert_eq!(s.step(CLI, ServerEvent::Other), ServerAction::Forward);
    assert_eq!(s.step(CLI, ServerEvent::Hotkey), ServerAction::HotkeyLeave);
    assert_eq!(s, ServerSession { mode: InputMode::Local, skip_moves: 0 });
}

#[test]
fn test_server_drops_quiet_moves() {
    let mut s = ServerSession::new();
    assert_eq!(s.step(TEST, mv(true, false, false)), ServerAction::CrossToRemote);
    assert_eq!(s.skip_moves, 0);
    // A quiet move is dropped before any return check.
    assert_eq!(s.step(TEST, mv(false, true, false)), ServerAction::Suppress);
    assert_eq!(s.mode, InputMode::Remote);
    assert_eq!(s.step(TEST, mv(false, false, true)), ServerAction::TrackMove { forward: true });
    assert_eq!(s.step(TEST, mv(false, true, true)), ServerAction::CrossToLocal);
    assert_eq!(s.mode, InputMode::Local);
}

#[test]
fn remote_mode_keeps_everything_from_this_machine() {
    for cfg in [CLI, TEST] {
        for skip in [0u8, 1] {
            for event in [
                ServerEvent::Hotkey,
                ServerEvent::Other,
                mv(false, false, false),
                mv(false, true, true),
                mv(true, false, true),
            ] {
                let mut s = ServerSession { mode: InputMode::Remote, skip_moves: skip };
                assert_ne!(s.step(cfg, event), ServerAction::PassThrough);
            }
        }
    }
}
