//! Process configuration: chat platform credentials, speech service and
//! key-value store addresses.
use vstd::prelude::*;

verus! {

#[derive(Debug, Clone)]
pub struct DiscordConfig {
    pub client_id: u64,
    pub bot_token: String,
}

#[derive(Debug, Clone)]
pub struct VoicevoxConfig {
    pub api_base: String,
}

#[derive(Debug, Clone)]
pub struct RedisConfig {
    pub url: String,
}

#[derive(Debug, Clone)]
pub struct Config {
    pub discord: DiscordConfig,
    pub voicevox: VoicevoxConfig,
    pub redis: RedisConfig,
}

} // verus!
