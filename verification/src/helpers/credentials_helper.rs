//! The bot's credentials, and the part of them that commands may read.

use vstd::prelude::*;

verus! {

/// What the bot needs to start: its token, the default command prefix and the
/// database connection string.
pub struct Credentials {
    pub bot_token: String,
    pub default_prefix: String,
    pub db_connection: String,
}

/// The name under which commands find the default prefix.
pub open spec fn default_prefix_key() -> Seq<char> {
    "default prefix"@
}

/// The credentials that commands may read, as name and value: only the
/// default prefix, never the token or the connection string.
pub fn public_credentials(creds: &Credentials) -> (entries: Vec<(String, String)>)
    ensures
        entries@.len() == 1,
        entries@[0].0@ == default_prefix_key(),
        entries@[0].1@ == creds.default_prefix@,
{
    let mut entries: Vec<(String, String)> = Vec::new();
    entries.push((String::from_str("default prefix"), creds.default_prefix.clone()));
    entries
}

} // verus!
