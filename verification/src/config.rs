//! Process configuration handed to the bot at startup.

use vstd::prelude::*;

verus! {

/// The bot's configuration.  The caller loads it (from a file, the
/// environment, or flags) and passes it in; the core only reads it.
#[derive(Debug)]
pub struct Config {
    pub homeserver_url: String,
    pub mxid: String,
    pub password: String,
    pub store_path: String,
    pub admins: Vec<String>,
    pub admin_room_id: String,
    pub session_path: String,
    pub database_url: String,
}

} // verus!
