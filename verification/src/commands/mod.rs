//! Slash commands of the assistant.

pub mod voice;
