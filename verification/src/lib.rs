//! The herdr side of a sidebar plugin: which agents it can send to, which one it tracks, and
//! what it asks of the herdr command.
//!
//! The library decides; it runs nothing and reads nothing. Its caller runs the command lines
//! that it gives out, decodes the replies and hands them back as plain values.

pub mod command;
pub mod labels;
pub mod laws;
pub mod meaning;
pub mod pane;
pub mod replies;
pub mod resolve;
pub mod send;
pub mod status;
pub mod text;
