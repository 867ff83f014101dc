//! The keys under which the bot keeps its shared data.

use vstd::prelude::*;

verus! {

/// Key of the shard manager.
pub struct ShardManagerContainer;

/// Key of the credentials that commands may read.
pub struct PubCreds;

/// Key of the database connection pool.
pub struct ConnectionPool;

/// Key of the running mute timers, by guild and user.
pub struct MuteMap;

/// Key of the command prefixes, by guild.
pub struct PrefixMap;

/// Key of the bot's own user id.
pub struct BotId;

/// Key of the HTTP client.
pub struct ReqwestClient;

/// Key of the commands allowed in emergency mode.
pub struct EmergencyCommands;

} // verus!
