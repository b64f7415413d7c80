//! Decisions, lookups and text handling of a floating voice-to-text tool.
use vstd::prelude::*;

pub mod text;
pub mod config;
pub mod session;
pub mod voice;
pub mod download;
pub mod endpoint;
pub mod mouse_hotkey;
pub mod auto_paste;
pub mod window;
pub mod menu;
pub mod transcript;

verus! {

} // verus!
