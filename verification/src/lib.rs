//! A relay between a chat platform and a text-completion service.
//!
//! An inbound message is classified as a command, a mention or neither;
//! a command is answered with the configured greeting, a mention with what
//! the completion service says. The library decides; its caller performs the
//! actions it hands out and reports back what came of them.

pub mod command;
pub mod completion;
pub mod config;
pub mod flow;
pub mod handlers;
pub mod intent;
pub mod laws;
pub mod message;
pub mod router;
