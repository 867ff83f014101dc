//! Helpers: bot information, credentials and embeds.

pub mod embed_store;
pub mod botinfo;
pub mod credentials_helper;
