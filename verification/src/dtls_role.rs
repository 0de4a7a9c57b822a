use vstd::prelude::*;

verus! {

/// The role of a peer in the DTLS handshake.
#[derive(Clone, Copy, Debug, PartialEq, Eq, Structural)]
pub enum DTLSRole {
    Unspecified,
    /// The role follows from the ICE role: the ICE controlled peer acts as the DTLS client, the ICE
    /// controlling peer as the DTLS server.
    Auto,
    Client,
    Server,
}

impl DTLSRole {
    /// Whether the role says which side of the handshake to take.
    pub open spec fn is_explicit(self) -> bool {
        self is Client || self is Server
    }

    /// The other side of the handshake.
    pub open spec fn inverse(self) -> DTLSRole {
        match self {
            DTLSRole::Client => DTLSRole::Server,
            DTLSRole::Server => DTLSRole::Client,
            other => other,
        }
    }
}

impl Default for DTLSRole {
    fn default() -> (role: DTLSRole)
        ensures
            role == DTLSRole::Auto,
    {
        DTLSRole::Auto
    }
}

/// The role of a peer that answers an offer, when nothing else settles it.
pub const DEFAULT_DTLS_ROLE_ANSWER: DTLSRole = DTLSRole::Client;

} // verus!
