//! State, key handling and screen contents of a terminal picker that runs a
//! script on the typed query and lets the user choose one line of its output.

pub mod app;
pub mod cli;
pub mod events;
pub mod key_laws;
pub mod laws;
pub mod output_laws;
pub mod schedule;
pub mod screen;
pub mod state_laws;
pub mod text;
