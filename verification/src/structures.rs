//! The bot's shared data keys, command groups and error messages.

pub mod cmd_data;
pub mod commands;
pub mod errors;
