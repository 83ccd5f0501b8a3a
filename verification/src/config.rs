//! Process configuration as plain data.
//!
//! Loading from the environment and configuration files is done by the
//! process edge; the library holds the shapes and the defaults.

use vstd::prelude::*;

verus! {

/// The credentials and logging level the process starts with.
#[derive(Debug)]
pub struct Settings {
    /// Token for the completion-backend provider.
    pub ai_provider_token: String,
    /// Token for the chat platform.
    pub discord_token: String,
    /// The logging filter, `info` unless configured.
    pub log_level: String,
}

/// Where the completion backend lives.
#[derive(Debug)]
pub struct Provider {
    /// API key for the provider.
    pub api_key: String,
    /// Base URL of the provider's API.
    pub base_url: String,
}

/// Which model to ask for.
#[derive(Debug)]
pub struct Model {
    /// The model's name at the provider.
    pub name: String,
}

/// The logging level used when none is configured.
pub fn default_log_level() -> (r: String)
    ensures
        r@ == "info"@,
{
    "info".to_owned()
}

/// The completion-token budget used when none is configured.
pub fn default_max_token() -> (r: u32)
    ensures
        r == 65536,
{
    65536
}

} // verus!
