//! Conversation logic and message rendering for a weather forecast chat bot.

pub mod codes;
pub mod command;
pub mod dialogue;
pub mod format;
pub mod provider;
pub mod render;
pub mod report;
pub mod sessions;
pub mod text;
