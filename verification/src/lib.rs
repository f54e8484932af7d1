//! Keyboard-driven navigation and selection for a terminal music player.
//!
//! The crate holds the state of the player's screens and the rules by which a
//! key press changes it. It never talks to the music service itself: a handler
//! that needs the service leaves a [`app::Request`] in the state, the host
//! performs it, and hands the outcome back through the functions of
//! [`actions`].

pub mod key;
pub mod nav;
pub mod text;
pub mod app;
pub mod actions;
pub mod handlers;
