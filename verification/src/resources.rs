use vstd::prelude::*;

verus! {

/// The kinds of values that a transport carries for its caller and never looks into.
pub trait Resources {
    /// The ICE transport that the DTLS packets travel over.
    type IceTransport;

    /// An endpoint of the ICE transport: one class of its packets.
    type Endpoint;

    /// A local certificate with its private key.
    type Certificate: Clone;

    /// An established DTLS connection.
    type Conn;

    /// An SRTP or SRTCP session.
    type Session;

    /// A stream that was opened for simulcast.
    type Stream;

    /// A handler that is told of each change of state.
    type Handler;

    /// Why an action of the caller failed.
    type Failure;

    /// The side of the readiness signal that is dropped once SRTP is up.
    type ReadyTx;

    /// The side of the readiness signal that waits for that.
    type ReadyRx;
}

} // verus!
