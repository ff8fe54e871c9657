//! Decision logic of a small animated desktop companion: its animation
//! states, its configuration and how the command line overrides it, how the
//! sprite directory is found, how GIF frames are prepared for display, and
//! how the character moves and reacts to clicks.

pub mod state;
pub mod text;
pub mod env;
pub mod error;
pub mod config;
pub mod parse;
pub mod animation;
pub mod motion;
pub mod gif;
