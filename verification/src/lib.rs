//! Qui Vive: the decisions, texts and embeds of a Discord moderation bot.

pub mod text;
pub mod model;
pub mod embed;
pub mod helpers;
pub mod structures;
pub mod handlers;
pub mod commands;
