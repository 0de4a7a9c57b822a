use vstd::prelude::*;

verus! {

/// The role of a peer in ICE.
#[derive(Clone, Copy, Debug, PartialEq, Eq, Structural)]
pub enum ICERole {
    Unspecified,
    Controlling,
    Controlled,
}

/// The state of an ICE transport.
#[derive(Clone, Copy, Debug, PartialEq, Eq, Structural)]
pub enum ICETransportState {
    Unspecified,
    New,
    Checking,
    Connected,
    Completed,
    Failed,
    Disconnected,
    Closed,
}

/// A class of packets of an ICE transport; an endpoint receives one class.
#[derive(Clone, Copy, Debug, PartialEq, Eq, Structural)]
pub enum Matcher {
    Dtls,
    Srtp,
    Srtcp,
}

} // verus!
