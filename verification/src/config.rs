//! The sizes and times that both ends of a tunnel go by.

use vstd::prelude::*;

verus! {

/// The size of a buffer for TCP data, in bytes.
pub const TCP_BUFFER_SIZE: usize = 65536;

/// The size of a buffer for UDP packets, in bytes; no packet is longer.
pub const UDP_BUFFER_SIZE: usize = 65535;

/// How many messages a channel between two tasks holds.
pub const CHANNEL_CAPACITY: usize = 1000;

/// How often a TCP relay pings its WebSocket, in seconds.
pub const WS_PING_INTERVAL: u64 = 30;

/// How long the server waits for the tunnel's name, in seconds.
pub const CONNECTION_TIMEOUT: u64 = 10;

/// How often the server prunes its registry, in seconds.
pub const CLEANUP_INTERVAL: u64 = 60;

/// How long a client waits for an address that it tries, in seconds.
pub const PROBE_TIMEOUT: u64 = 2;

/// The sizes and times are the ones that both ends were built for: a tunnel pings
/// every half minute, gives a client ten seconds for its name and an address two
/// seconds for its answer, and the registry is pruned once a minute.
pub proof fn both_ends_agree()
    ensures
        TCP_BUFFER_SIZE == 65536,
        UDP_BUFFER_SIZE == 65535,
        CHANNEL_CAPACITY == 1000,
        WS_PING_INTERVAL == 30,
        CONNECTION_TIMEOUT == 10,
        CLEANUP_INTERVAL == 60,
        PROBE_TIMEOUT == 2,
{
}

} // verus!
