//! Verified core of a terminal Subsonic music client: page and selection
//! state, list filtering, key routing, hotkey and footer content, layout hit
//! testing and the reading of server replies.
use vstd::prelude::*;

pub mod config;
pub mod footer;
pub mod hotkeys;
pub mod input;
pub mod key_state;
pub mod laws;
pub mod layout;
pub mod models;
pub mod playback;
pub mod queue;
pub mod server;
pub mod state;
pub mod subsonic;
pub mod text;
pub mod theme;

verus! {
} // verus!
