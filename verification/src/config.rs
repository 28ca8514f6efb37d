//! Configuration data: one monitored target per configured website, the
//! polling interval, the notification endpoint and the asset names to
//! archive. Reading the file is the caller's business; the values arrive
//! here as plain data.

use vstd::prelude::*;

verus! {

/// One monitored deployment: its host and its site key. Immutable once
/// loaded.
pub struct Target {
    pub host: String,
    pub sitekey: String,
}

impl Target {
    /// A target for the given host and site key.
    pub fn new(host: &str, sitekey: &str) -> (t: Target)
        ensures
            t.host@ == host@,
            t.sitekey@ == sitekey@,
    {
        Target { host: host.to_owned(), sitekey: sitekey.to_owned() }
    }
}

/// The monitor's configuration.
pub struct Config {
    /// Seconds between polling cycles; must be positive.
    pub interval: u64,
    /// Where notifications are posted.
    pub webhook_url: String,
    /// The deployments to watch, in order.
    pub websites: Vec<Target>,
    /// The asset file names archived for every new version, in order.
    pub scripts: Vec<String>,
}

impl Config {
    /// A configuration is well formed when its interval is positive.
    pub open spec fn wf(&self) -> bool {
        self.interval >= 1
    }

    /// Whether the configuration is well formed.
    pub fn is_valid(&self) -> (r: bool)
        ensures
            r == self.wf(),
    {
        self.interval >= 1
    }
}

} // verus!
