//! A terminal controller for Spotify: the verified core of its state machine,
//! its text helpers, its version checks and its request building.

pub mod text;
pub mod strs;
pub mod update;
pub mod types;
pub mod error;
pub mod oauth;
pub mod player;
pub mod state;
pub mod transitions;
pub mod messages;
pub mod laws;
pub mod api;
pub mod form;
pub mod grid;
pub mod panel;
