//! The groups that the bot's commands are filed under.

use vstd::prelude::*;

verus! {

/// General commands.
pub struct General;

/// Admin and moderator commands that configure the bot.
pub struct Config;

/// Moderation commands.
pub struct Moderation;

/// Commands for logging activity.
pub struct Logging;

/// Generic information commands.
pub struct Info;

/// Commands for welcoming new members.
pub struct Welcome;

/// Support and help commands.
pub struct Support;

} // verus!
