//! The values that travel from the orchestrator to a worker and back.
use vstd::prelude::*;

verus! {

/// Orthogonal switches controlling the shape of one request.
#[derive(Clone, Copy, Debug, PartialEq, Eq, Structural)]
pub struct AttackProfile {
    /// Advertise only `http/1.1` in ALPN and treat the payload as text.
    pub force_http1: bool,
    /// Send an HTTP/1.0 request line instead of the generated payload.
    pub force_http10: bool,
    /// Refuse TLS 1.2 and later; only the legacy provider accepts this.
    pub force_tls11: bool,
    /// Enable early data on the TLS session cache.
    pub use_0rtt: bool,
    /// Cap every write at 5 bytes with at least 5 ms between writes.
    pub fragment_handshake: bool,
}

impl AttackProfile {
    /// The profile of a plain `DISPATCH`: HTTP/1.1 only.
    pub fn standard() -> (r: AttackProfile)
        ensures
            r == (AttackProfile {
                force_http1: true,
                force_http10: false,
                force_tls11: false,
                use_0rtt: false,
                fragment_handshake: false,
            }),
    {
        AttackProfile {
            force_http1: true,
            force_http10: false,
            force_tls11: false,
            use_0rtt: false,
            fragment_handshake: false,
        }
    }

    /// The profile of `DISPATCH STEALTH`: HTTP/1.1, early data, fragmented
    /// handshake.
    pub fn stealth() -> (r: AttackProfile)
        ensures
            r == (AttackProfile {
                force_http1: true,
                force_http10: false,
                force_tls11: false,
                use_0rtt: true,
                fragment_handshake: true,
            }),
    {
        AttackProfile {
            force_http1: true,
            force_http10: false,
            force_tls11: false,
            use_0rtt: true,
            fragment_handshake: true,
        }
    }

    /// The profile of `DISPATCH LEGACY`: HTTP/1.1, TLS 1.1, HTTP/1.0 request.
    pub fn legacy() -> (r: AttackProfile)
        ensures
            r == (AttackProfile {
                force_http1: true,
                force_http10: true,
                force_tls11: true,
                use_0rtt: false,
                fragment_handshake: false,
            }),
    {
        AttackProfile {
            force_http1: true,
            force_http10: true,
            force_tls11: true,
            use_0rtt: false,
            fragment_handshake: false,
        }
    }
}

/// The endpoint a task is aimed at. Its URL scheme selects the transport.
#[derive(Clone, Debug)]
pub struct Target {
    pub url: String,
    pub method: String,
    pub headers: Vec<(String, String)>,
}

/// One unit of work, consumed exactly once by one worker.
#[derive(Clone, Debug)]
pub struct TaskPackage {
    pub target: Target,
    pub payload_template: String,
    pub profile: AttackProfile,
}

/// One completed request.
#[derive(Clone, Copy, Debug, PartialEq, Eq, Structural)]
pub struct AttackResult {
    pub status_code: u16,
    pub latency_us: u128,
    pub size_bytes: usize,
}

} // verus!
