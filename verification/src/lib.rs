//! Session core of an interactive terminal controller for wireless networks.
//!
//! The crate covers the logic of the program: reconciling raw scan
//! observations into a canonical network catalog, the session state machine
//! that moves between scanning, selection, authentication and connection
//! phases, and the per-tick decisions of the cooperative event loop. Terminal
//! rendering and the concrete backend calls (D-Bus or the `nmcli` tool) live
//! outside the crate; they exchange plain values with it.

pub mod network;
pub mod session;
pub mod text;
pub mod types;
pub mod ui;
