//! Process configuration and its defaults.

use vstd::prelude::*;
use vstd::string::*;

verus! {

/// Settings of one daemon instance.
#[derive(Debug, Clone)]
pub struct Config {
    /// Address the HTTP listener binds to.
    pub host: String,
    /// Port the HTTP listener binds to.
    pub port: u16,
    /// Directory under which every working directory is created.
    pub repo_root: String,
    /// Shared secret that signs inbound webhook bodies.
    pub webhook_secret: String,
    /// Credential of the notification channel, if notifications are wanted.
    pub telegram_token: Option<String>,
    /// Destinations of notifications, if notifications are wanted.
    pub telegram_groups: Option<Vec<i64>>,
    /// Number of builds that may run at the same time.
    pub parallel_builds: u8,
}

/// The bind address used when none is configured.
pub fn default_host() -> (host: String)
    ensures
        host@ == "127.0.0.1"@,
{
    String::from_str("127.0.0.1")
}

/// The port used when none is configured.
pub fn default_port() -> (port: u16)
    ensures
        port == 4677,
{
    4677
}

} // verus!
