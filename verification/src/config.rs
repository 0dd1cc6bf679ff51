//! The bot's configuration as plain values: who administers it, what names
//! it answers to, and which relays it reads and writes.

use vstd::prelude::*;

verus! {

/// The bot's own settings.
#[derive(Debug)]
pub struct BotConfig {
    pub admin_pubkeys: Vec<String>,
    pub bot_names: Vec<String>,
    pub prompt: String,
}

/// The relay servers to read from and write to.
#[derive(Debug)]
pub struct RelayConfig {
    pub write: Vec<String>,
    pub read: Vec<String>,
}

/// The whole application configuration.
#[derive(Debug)]
pub struct AppConfig {
    pub relay_servers: RelayConfig,
    pub bot: BotConfig,
}

} // verus!
