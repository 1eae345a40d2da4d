//! Live markdown preview: decides, for one watched file and one connected
//! client, when the file has genuinely changed and what markup to push.
//!
//! - `render`: markdown to HTML.
//! - `detector`: which filesystem notifications and timestamps matter.
//! - `supervisor`: the per-connection watch loop as a state machine.
//! - `laws`: what holds of every run of that loop.
pub mod detector;
pub mod laws;
pub mod render;
pub mod supervisor;
