//! Reactions to gateway events.

pub mod event_handler;
pub mod member_join;
pub mod member_leave;
