use vstd::prelude::*;

verus! {

/// The state of a DTLS transport.
#[derive(Clone, Copy, Debug, PartialEq, Eq, Structural)]
pub enum DTLSTransportState {
    /// The transport was not set up at all.
    Unspecified,
    /// Negotiation has not started.
    New,
    /// A handshake is in progress.
    Connecting,
    /// The handshake is done and the remote certificate is known.
    Connected,
    /// The transport was stopped.
    Closed,
    /// Negotiation came to an error.
    Failed,
}

} // verus!
