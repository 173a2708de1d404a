//! Settings of a WebSocket server.
use std::time::Duration;
use vstd::prelude::*;

verus! {

/// The length of a span of time in nanoseconds, as `Duration::as_nanos` returns it.
pub uninterp spec fn duration_nanos(duration: Duration) -> nat;

/// `Duration::from_secs`: a span of that many whole seconds.
pub assume_specification[ Duration::from_secs ](secs: u64) -> (duration: Duration)
    ensures
        duration_nanos(duration) == secs * 1_000_000_000,
;

/// `Duration::as_nanos`: the total number of nanoseconds of the span.
pub assume_specification[ Duration::as_nanos ](duration: &Duration) -> (nanos: u128)
    ensures
        nanos == duration_nanos(*duration),
;

/// Settings of a WebSocket server.
#[derive(Debug)]
pub struct WebsocketConfig {
    /// Address that the server listens on.
    pub address: String,
    /// Time between two pings.
    pub heartbeat: Duration,
    /// Time without a pong after which a connection is closed.
    pub timeout: Duration,
    /// Number of messages, and of calls, that a session queues.
    pub channel_size: usize,
}

impl Clone for WebsocketConfig {
    fn clone(&self) -> (config: Self)
        ensures
            config == *self,
    {
        Self {
            address: self.address.clone(),
            heartbeat: self.heartbeat,
            timeout: self.timeout,
            channel_size: self.channel_size,
        }
    }
}

impl Default for WebsocketConfig {
    fn default() -> (config: Self)
        ensures
            config.address@ == "127.0.0.1:80"@,
            duration_nanos(config.heartbeat) == 5_000_000_000,
            duration_nanos(config.timeout) == 10_000_000_000,
            config.channel_size == 1000,
    {
        Self {
            address: "127.0.0.1:80".to_string(),
            heartbeat: Duration::from_secs(5),
            timeout: Duration::from_secs(10),
            channel_size: 1000,
        }
    }
}

/// Without other settings a server listens at port 80 of the local machine, pings every five
/// seconds, closes a connection after ten seconds without a pong, and queues a thousand messages,
/// and as many calls, for a session. So a peer gets a ping, and time to answer, before its
/// connection is closed.
pub proof fn default_settings(config: WebsocketConfig)
    requires
        call_ensures(WebsocketConfig::default, (), config),
    ensures
        config.address@ == "127.0.0.1:80"@,
        duration_nanos(config.heartbeat) == 5 * 1_000_000_000,
        duration_nanos(config.timeout) == 10 * 1_000_000_000,
        duration_nanos(config.heartbeat) < duration_nanos(config.timeout),
        config.channel_size == 1000,
{
}

/// A copy of the settings has each of them.
pub proof fn copied_settings(config: &WebsocketConfig, copy: WebsocketConfig)
    requires
        call_ensures(WebsocketConfig::clone, (config,), copy),
    ensures
        copy.address@ == config.address@,
        copy.heartbeat == config.heartbeat,
        copy.timeout == config.timeout,
        copy.channel_size == config.channel_size,
{
}

} // verus!
