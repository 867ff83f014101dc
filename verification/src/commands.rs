//! Commands reserved to the bot's owners.

pub mod owner;
