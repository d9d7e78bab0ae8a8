//! Deskserver: one keyboard and mouse shared between macOS and Windows
//! machines on a LAN. This crate holds the verified core: the wire framing,
//! the key and modifier tables, and the decisions that drive the server and
//! client sessions.
pub mod keymap;
pub mod protocol;
pub mod state;
pub mod session;
pub mod server;
pub mod capture;
pub mod layout;
pub mod discovery;
pub mod tray;
mod text;
