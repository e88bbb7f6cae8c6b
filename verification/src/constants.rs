//! Fixed loopback ports and protocol-wide constants shared by the
//! listeners of one session.

use vstd::prelude::*;

verus! {

/// Loopback address advertised to redirected clients, as a big-endian
/// 32-bit value (127.0.0.1).
pub const LOOPBACK_IP: u32 = 0x7F00_0001;

/// Port of the redirector listener answering legacy discovery requests.
pub const REDIRECTOR_PORT: u16 = 42127;

/// Port of the main-tunnel listener.
pub const MAIN_PORT: u16 = 42128;

/// Port of the telemetry-style auxiliary listener.
pub const TELEMETRY_PORT: u16 = 42129;

/// Port of the QoS-style auxiliary listener.
pub const QOS_PORT: u16 = 42130;

/// Port of the local HTTP reverse proxy.
pub const HTTP_PORT: u16 = 42131;

/// Port of the HTTP-upgrade tunnel listener used when the backend
/// offers no dedicated datagram port.
pub const TUNNEL_PORT: u16 = 42132;

/// Seconds an idle redirector connection is kept before it is closed.
pub const IDLE_TIMEOUT_SECS: u64 = 60;

} // verus!
