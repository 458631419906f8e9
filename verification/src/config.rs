//! The daemon's configuration, as plain values.
//!
//! Loading a configuration file, and the defaults that depend on the
//! environment (the state directory), are the caller's part.

use vstd::prelude::*;

verus! {

/// Settings shared by every tool: where the journal lives.
pub struct GeneralConfig {
    pub state_dir: String,
}

/// The daemon's own settings: the liveness interval in seconds, and the
/// idle timeout in seconds.
pub struct SwayMatianeConfig {
    pub live_interval_secs: u64,
    pub idle_timeout: u32,
}

/// The default liveness interval, in seconds.
pub fn default_live_interval() -> (r: u64)
    ensures
        r == 60,
{
    60
}

/// The default idle timeout, in seconds.
pub fn default_idle_timeout() -> (r: u32)
    ensures
        r == 60,
{
    60
}

impl Default for SwayMatianeConfig {
    /// A liveness interval of 60 s and an idle timeout of 60 s.
    fn default() -> (r: SwayMatianeConfig)
        ensures
            r.live_interval_secs == 60,
            r.idle_timeout == 60,
    {
        SwayMatianeConfig { live_interval_secs: default_live_interval(), idle_timeout: default_idle_timeout() }
    }
}

/// Everything the daemon is configured with.
pub struct SwayCliConfig {
    pub general: GeneralConfig,
    pub sway: SwayMatianeConfig,
}

} // verus!
