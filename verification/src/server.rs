//! The decisions of a server's capture loop: which captured events stay on
//! this machine, which go to the client, and when the pointer changes screens.
//! The geometry (where the pointer is, whether it reached an edge) is measured
//! by the caller and handed in as plain answers.
use crate::session::{spec_toggle, toggle_input_mode, ModeSwitch};
use crate::state::InputMode;
use vstd::prelude::*;

verus! {

/// How a server settles after a crossing and treats near-zero pointer moves.
#[derive(Debug, Clone, Copy, PartialEq, Eq, Structural)]
pub struct ServerConfig {
    /// Pointer moves ignored right after each edge crossing, in either direction.
    pub settle_moves: u8,
    /// Whether a near-zero move in REMOTE mode still moves the virtual cursor
    /// (it is never sent). When false, such a move is dropped before that.
    pub track_quiet_moves: bool,
}

/// A captured event, as far as the server's decisions look at it.
#[derive(Debug, Clone, Copy, PartialEq, Eq, Structural)]
pub enum ServerEvent {
    /// The mode hotkey completed.
    Hotkey,
    /// The pointer moved. `at_crossing_edge`: in LOCAL mode, the pointer is
    /// at the edge that leads to the client. `past_return_edge`: in REMOTE
    /// mode, this move takes the virtual cursor past the edge that leads back.
    /// `significant`: the move is large enough to send.
    Move { at_crossing_edge: bool, past_return_edge: bool, significant: bool },
    /// A button, wheel or key event.
    Other,
}

/// What the capture loop does with an event.
#[derive(Debug, Clone, Copy, PartialEq, Eq, Structural)]
pub enum ServerAction {
    /// The hotkey switched to REMOTE: tell the client it has control.
    HotkeyEnter,
    /// The hotkey switched to LOCAL: tell the client control has returned.
    HotkeyLeave,
    /// The pointer crossed to the client: remember where it left and send
    /// the entry point.
    CrossToRemote,
    /// The virtual cursor crossed back: restore the pointer and tell the client.
    CrossToLocal,
    /// Let the event reach this machine.
    PassThrough,
    /// Hold the event back and send nothing.
    Suppress,
    /// Move the virtual cursor by this delta; send the delta when `forward`.
    TrackMove { forward: bool },
    /// Send the event to the client.
    Forward,
}

/// The state of a server's capture loop.
#[derive(Debug, Clone, Copy, PartialEq, Eq, Structural)]
pub struct ServerSession {
    pub mode: InputMode,
    /// Pointer moves still to ignore after the last crossing.
    pub skip_moves: u8,
}

/// Whether an action keeps the event from this machine.
pub open spec fn suppresses(action: ServerAction) -> bool {
    action != ServerAction::PassThrough
}

/// Whether an action switches the mode.
pub open spec fn switches_mode(action: ServerAction) -> bool {
    match action {
        ServerAction::HotkeyEnter | ServerAction::HotkeyLeave | ServerAction::CrossToRemote
        | ServerAction::CrossToLocal => true,
        _ => false,
    }
}

/// One step of the capture loop: the next state and the action for an event.
pub open spec fn spec_server_step(cfg: ServerConfig, s: ServerSession, event: ServerEvent) -> (
    ServerSession,
    ServerAction,
) {
    match event {
        ServerEvent::Hotkey => {
            let (mode, switch) = spec_toggle(s.mode);
            (
                ServerSession { mode, ..s },
                if switch == ModeSwitch::EnterRemote {
                    ServerAction::HotkeyEnter
                } else {
                    ServerAction::HotkeyLeave
                },
            )
        },
        ServerEvent::Move { at_crossing_edge, past_return_edge, significant } => {
            if s.skip_moves > 0 {
                (
                    ServerSession { skip_moves: (s.skip_moves - 1) as u8, ..s },
                    if s.mode == InputMode::Local {
                        ServerAction::PassThrough
                    } else {
                        ServerAction::Suppress
                    },
                )
            } else if s.mode == InputMode::Local {
                if at_crossing_edge {
                    (
                        ServerSession { mode: InputMode::Remote, skip_moves: cfg.settle_moves },
                        ServerAction::CrossToRemote,
                    )
                } else {
                    (s, ServerAction::PassThrough)
                }
            } else if !significant && !cfg.track_quiet_moves {
                (s, ServerAction::Suppress)
            } else if past_return_edge {
                (
                    ServerSession { mode: InputMode::Local, skip_moves: cfg.settle_moves },
                    ServerAction::CrossToLocal,
                )
            } else {
                (s, ServerAction::TrackMove { forward: significant })
            }
        },
        ServerEvent::Other => (
            s,
            if s.mode == InputMode::Local {
                ServerAction::PassThrough
            } else {
                ServerAction::Forward
            },
        ),
    }
}

impl ServerSession {
    /// A server starts in LOCAL mode with nothing to skip.
    pub fn new() -> (s: ServerSession)
        ensures
            s.mode == InputMode::Local,
            s.skip_moves == 0,
    {
        ServerSession { mode: InputMode::Local, skip_moves: 0 }
    }

    /// Decide what to do with a captured event, and update the state.
    pub fn step(&mut self, cfg: ServerConfig, event: ServerEvent) -> (action: ServerAction)
        ensures
            (*final(self), action) == spec_server_step(cfg, *old(self), event),
    {
        match event {
            ServerEvent::Hotkey => {
                let (mode, switch) = toggle_input_mode(self.mode);
                self.mode = mode;
                match switch {
                    ModeSwitch::EnterRemote => ServerAction::HotkeyEnter,
                    ModeSwitch::ReturnLocal => ServerAction::HotkeyLeave,
                }
            },
            ServerEvent::Move { at_crossing_edge, past_return_edge, significant } => {
                if self.skip_moves > 0 {
                    self.skip_moves = self.skip_moves - 1;
                    match self.mode {
                        InputMode::Local => ServerAction::PassThrough,
                        InputMode::Remote => ServerAction::Suppress,
                    }
                } else {
                    match self.mode {
                        InputMode::Local => {
                            if at_crossing_edge {
                                self.mode = InputMode::Remote;
                                self.skip_moves = cfg.settle_moves;
                                ServerAction::CrossToRemote
                            } else {
                                ServerAction::PassThrough
                            }
                        },
                        InputMode::Remote => {
                            if !significant && !cfg.track_quiet_moves {
                                ServerAction::Suppress
                            } else if past_return_edge {
                                self.mode = InputMode::Local;
                                self.skip_moves = cfg.settle_moves;
                                ServerAction::CrossToLocal
                            } else {
                                ServerAction::TrackMove { forward: significant }
                            }
                        },
                    }
                }
            },
            ServerEvent::Other => match self.mode {
                InputMode::Local => ServerAction::PassThrough,
                InputMode::Remote => ServerAction::Forward,
            },
        }
    }
}

/// The state after a run of events.
pub open spec fn server_run(cfg: ServerConfig, s: ServerSession, events: Seq<ServerEvent>) -> ServerSession
    decreases events.len(),
{
    if events.len() == 0 {
        s
    } else {
        server_run(cfg, spec_server_step(cfg, s, events[0]).0, events.drop_first())
    }
}

/// In REMOTE mode nothing captured reaches this machine.
pub proof fn lemma_server_remote_suppresses(cfg: ServerConfig, s: ServerSession, event: ServerEvent)
    requires
        s.mode == InputMode::Remote,
    ensures
        suppresses(spec_server_step(cfg, s, event).1),
{
}

/// In LOCAL mode the server holds back only the hotkey and the move that
/// crosses to the client; everything else reaches this machine.
pub proof fn lemma_server_local_holds_back_only_switches(
    cfg: ServerConfig,
    s: ServerSession,
    event: ServerEvent,
)
    requires
        s.mode == InputMode::Local,
    ensures
        suppresses(spec_server_step(cfg, s, event).1) <==> switches_mode(
            spec_server_step(cfg, s, event).1,
        ),
{
}

/// The mode changes exactly when the action is one of the four switches,
/// and every switch answers to the mode it leaves.
pub proof fn lemma_server_mode_changes_only_on_switch(
    cfg: ServerConfig,
    s: ServerSession,
    event: ServerEvent,
)
    ensures
        (spec_server_step(cfg, s, event).0.mode != s.mode) <==> switches_mode(
            spec_server_step(cfg, s, event).1,
        ),
        spec_server_step(cfg, s, event).0.mode == InputMode::Remote <==> (
        spec_server_step(cfg, s, event).1 == ServerAction::HotkeyEnter
            || spec_server_step(cfg, s, event).1 == ServerAction::CrossToRemote || (s.mode
            == InputMode::Remote && !switches_mode(spec_server_step(cfg, s, event).1))),
{
}

/// The hotkey always switches the mode, however many settling moves are
/// still pending: from LOCAL it hands control to the client, from REMOTE it
/// takes control back. It leaves the settling count alone.
pub proof fn lemma_server_hotkey_always_toggles(cfg: ServerConfig, s: ServerSession)
    ensures
        spec_server_step(cfg, s, ServerEvent::Hotkey).0.mode != s.mode,
        spec_server_step(cfg, s, ServerEvent::Hotkey).0.skip_moves == s.skip_moves,
        s.mode == InputMode::Local ==> spec_server_step(cfg, s, ServerEvent::Hotkey).1
            == ServerAction::HotkeyEnter,
        s.mode == InputMode::Remote ==> spec_server_step(cfg, s, ServerEvent::Hotkey).1
            == ServerAction::HotkeyLeave,
        spec_server_step(cfg, spec_server_step(cfg, s, ServerEvent::Hotkey).0, ServerEvent::Hotkey).0
            == s,
{
}

/// Buttons, wheel and keys never change the state: in REMOTE mode they are
/// sent to the client, in LOCAL mode they reach this machine, settling or not.
pub proof fn lemma_server_other_input_forwarded_in_remote(cfg: ServerConfig, s: ServerSession)
    ensures
        spec_server_step(cfg, s, ServerEvent::Other).0 == s,
        (spec_server_step(cfg, s, ServerEvent::Other).1 == ServerAction::Forward) <==> s.mode
            == InputMode::Remote,
        (spec_server_step(cfg, s, ServerEvent::Other).1 == ServerAction::PassThrough) <==> s.mode
            == InputMode::Local,
{
}

/// A move while settling moves are pending changes nothing but the count:
/// it never crosses and is never sent. Once none are pending, a significant
/// move in REMOTE mode is sent unless it takes the virtual cursor back across,
/// and a crossing in either direction starts a fresh settling count.
pub proof fn lemma_server_moves(
    cfg: ServerConfig,
    s: ServerSession,
    at_crossing_edge: bool,
    past_return_edge: bool,
    significant: bool,
)
    ensures
        ({
            let e = ServerEvent::Move { at_crossing_edge, past_return_edge, significant };
            let (next, action) = spec_server_step(cfg, s, e);
            &&& s.skip_moves > 0 ==> next.mode == s.mode && next.skip_moves + 1 == s.skip_moves
                && !switches_mode(action) && !(action is TrackMove) && action != ServerAction::Forward
            &&& (s.skip_moves == 0 && s.mode == InputMode::Local) ==> (switches_mode(action)
                <==> at_crossing_edge)
            &&& (s.skip_moves == 0 && s.mode == InputMode::Remote && significant) ==> (
            if past_return_edge {
                action == ServerAction::CrossToLocal
            } else {
                action == ServerAction::TrackMove { forward: true }
            })
            &&& (s.skip_moves == 0 && s.mode == InputMode::Remote && !significant) ==> !(action
                matches ServerAction::TrackMove { forward: true })
            &&& switches_mode(action) ==> next.skip_moves == cfg.settle_moves
        }),
{
}

/// After a crossing the next `settle_moves` pointer moves cannot cross
/// again: the pointer does not bounce between screens.
pub proof fn lemma_server_settling_moves_never_cross(
    cfg: ServerConfig,
    s: ServerSession,
    events: Seq<ServerEvent>,
)
    requires
        events.len() <= s.skip_moves,
        forall|i: int| 0 <= i < events.len() ==> #[trigger] events[i] is Move,
    ensures
        server_run(cfg, s, events).mode == s.mode,
    decreases events.len(),
{
    if events.len() > 0 {
        let next = spec_server_step(cfg, s, events[0]).0;
        assert(next.mode == s.mode && next.skip_moves == s.skip_moves - 1);
        let rest = events.drop_first();
        assert forall|i: int| 0 <= i < rest.len() implies #[trigger] rest[i] is Move by {
            assert(rest[i] == events[i + 1]);
        }
        lemma_server_settling_moves_never_cross(cfg, next, rest);
    }
}

} // verus!
