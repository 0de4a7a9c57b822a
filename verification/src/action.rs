use crate::config::{DTLSConfig, DTLSConfigModel, SrtpConfig, SrtpConfigModel, SrtpPlan};
use crate::dtls_parameters::DTLSParameters;
use crate::dtls_transport_state::DTLSTransportState;
use crate::error::{result_model, texts, Error, ErrorModel};
use crate::ice::Matcher;
use crate::protection_profile::{ProtectionProfile, SrtpProtectionProfile};
use crate::resources::Resources;
use std::sync::Arc;
use vstd::prelude::*;

verus! {

/// What the caller of the transport has to do next. Each action but `Done` holds, under `then` where
/// there is anything to hold, what the transport needs again along with the reply.
#[allow(inconsistent_fields)]
pub enum Action<R: Resources> {
    /// Ask the ICE transport for an endpoint that receives the packets of one class, and hand what
    /// it gave to `resume_endpoint`.
    NewEndpoint { matcher: Matcher, then: EndpointThen<R> },
    /// Read the state of the ICE transport and hand it to `resume_ice_state`.
    ReadIceState { then: IceStateThen<R> },
    /// Fire the handler with the new state, and call `resume_notified` when it is done.
    Notify { handler: Arc<R::Handler>, state: DTLSTransportState, then: NotifyThen<R> },
    /// Read the role of the ICE transport and hand it to `resume_ice_role`.
    ReadIceRole { then: IceRoleThen<R> },
    /// Run a DTLS handshake over the endpoint and hand the outcome to `resume_handshake`.
    Handshake { endpoint: Arc<R::Endpoint>, config: DTLSConfig<R>, is_client: bool },
    /// Export the keys for a session with this profile from the DTLS connection, and hand them to
    /// `resume_keys`.
    ExtractKeys {
        conn: Arc<R::Conn>,
        profile: ProtectionProfile,
        is_client: bool,
        then: KeysThen,
    },
    /// Open a session over the endpoint, for RTP or for RTCP, and hand it to `resume_session`.
    NewSession {
        endpoint: Arc<R::Endpoint>,
        config: SrtpConfig,
        is_rtp: bool,
        then: SessionThen,
    },
    /// Close the target, and hand the text of the error, if there was one, to `resume_closed`.
    Close { target: CloseTarget<R>, then: CloseThen<R> },
    /// The operation is over.
    Done { result: Result<(), Error<R::Failure>> },
}

/// What an endpoint of the ICE transport was asked for.
pub enum EndpointThen<R: Resources> {
    /// To run the handshake over.
    Dtls { remote_parameters: DTLSParameters },
    /// For the SRTP session; the handshake has its endpoint.
    Srtp { endpoint: Arc<R::Endpoint>, remote_parameters: DTLSParameters },
    /// For the SRTCP session; the handshake has its endpoint.
    Srtcp { endpoint: Arc<R::Endpoint>, remote_parameters: DTLSParameters },
}

/// What a check of the ICE transport has to let pass.
pub struct IceStateThen<R: Resources> {
    pub endpoint: Arc<R::Endpoint>,
    pub remote_parameters: DTLSParameters,
}

/// What follows once the handler knows of a change of state.
pub enum NotifyThen<R: Resources> {
    /// The handshake over this endpoint.
    Handshake { endpoint: Arc<R::Endpoint> },
    /// The SRTP sessions.
    StartSrtp,
    /// Nothing; this is the result.
    Finish { result: Result<(), Error<R::Failure>> },
}

/// What the role of the ICE transport was asked for.
pub enum IceRoleThen<R: Resources> {
    /// For the handshake over this endpoint.
    Handshake { endpoint: Arc<R::Endpoint> },
    /// For the export of keys out of this connection.
    Srtp { conn: Arc<R::Conn>, plan: SrtpPlan },
}

/// What the keys were exported for.
pub struct KeysThen {
    pub plan: SrtpPlan,
}

/// What a session was opened for.
pub enum SessionThen {
    /// For RTP; the session for RTCP comes next.
    Srtp { plan: SrtpPlan },
    /// For RTCP.
    Srtcp,
}

/// What a shutdown closes.
pub enum CloseTarget<R: Resources> {
    Session(Arc<R::Session>),
    Stream(Arc<R::Stream>),
    Conn(Arc<R::Conn>),
}

/// How far a shutdown has come, with the texts of the errors so far.
pub enum CloseThen<R: Resources> {
    /// At the session for RTP.
    SrtpSession { errs: Vec<String> },
    /// At the session for RTCP.
    SrtcpSession { errs: Vec<String> },
    /// At a stream, before `rest`.
    Stream { rest: Vec<Arc<R::Stream>>, errs: Vec<String> },
    /// At the DTLS connection.
    Conn { errs: Vec<String> },
}

/// What came out of a handshake.
pub struct Handshake<R: Resources> {
    pub conn: R::Conn,
    pub srtp_protection_profile: SrtpProtectionProfile,
    /// The certificates of the peer, its own first.
    pub peer_certificates: Vec<Vec<u8>>,
}

/// What becomes of an RTCP packet that is to be sent.
pub enum RtcpWrite<R: Resources, P> {
    /// It goes out through the session.
    Send { session: Arc<R::Session>, pkt: P },
    /// It is discarded; this many bytes count as written.
    Discard { written: usize },
}

/// [`NotifyThen`] with its result as a model.
pub enum NotifyThenModel<R: Resources> {
    Handshake { endpoint: Arc<R::Endpoint> },
    StartSrtp,
    Finish { result: Result<(), ErrorModel<R::Failure>> },
}

impl<R: Resources> View for NotifyThen<R> {
    type V = NotifyThenModel<R>;

    open spec fn view(&self) -> NotifyThenModel<R> {
        match *self {
            NotifyThen::Handshake { endpoint } => NotifyThenModel::Handshake { endpoint },
            NotifyThen::StartSrtp => NotifyThenModel::StartSrtp,
            NotifyThen::Finish { result } => NotifyThenModel::Finish {
                result: result_model(result),
            },
        }
    }
}

/// [`CloseThen`] with its lists as sequences.
#[verifier::ext_equal]
pub enum CloseThenModel<R: Resources> {
    SrtpSession { errs: Seq<Seq<char>> },
    SrtcpSession { errs: Seq<Seq<char>> },
    Stream { rest: Seq<Arc<R::Stream>>, errs: Seq<Seq<char>> },
    Conn { errs: Seq<Seq<char>> },
}

impl<R: Resources> View for CloseThen<R> {
    type V = CloseThenModel<R>;

    open spec fn view(&self) -> CloseThenModel<R> {
        match *self {
            CloseThen::SrtpSession { errs } => CloseThenModel::SrtpSession { errs: texts(errs@) },
            CloseThen::SrtcpSession { errs } => CloseThenModel::SrtcpSession { errs: texts(errs@) },
            CloseThen::Stream { rest, errs } => CloseThenModel::Stream {
                rest: rest@,
                errs: texts(errs@),
            },
            CloseThen::Conn { errs } => CloseThenModel::Conn { errs: texts(errs@) },
        }
    }
}

/// [`Action`] with the models of what it holds.
#[allow(inconsistent_fields)]
#[verifier::ext_equal]
pub enum ActionModel<R: Resources> {
    NewEndpoint { matcher: Matcher, then: EndpointThen<R> },
    ReadIceState { then: IceStateThen<R> },
    Notify { handler: Arc<R::Handler>, state: DTLSTransportState, then: NotifyThenModel<R> },
    ReadIceRole { then: IceRoleThen<R> },
    Handshake { endpoint: Arc<R::Endpoint>, config: DTLSConfigModel<R>, is_client: bool },
    ExtractKeys {
        conn: Arc<R::Conn>,
        profile: ProtectionProfile,
        is_client: bool,
        then: KeysThen,
    },
    NewSession {
        endpoint: Arc<R::Endpoint>,
        config: SrtpConfigModel,
        is_rtp: bool,
        then: SessionThen,
    },
    Close { target: CloseTarget<R>, then: CloseThenModel<R> },
    Done { result: Result<(), ErrorModel<R::Failure>> },
}

impl<R: Resources> View for Action<R> {
    type V = ActionModel<R>;

    open spec fn view(&self) -> ActionModel<R> {
        match *self {
            Action::NewEndpoint { matcher, then } => ActionModel::NewEndpoint { matcher, then },
            Action::ReadIceState { then } => ActionModel::ReadIceState { then },
            Action::Notify { handler, state, then } => ActionModel::Notify {
                handler,
                state,
                then: then@,
            },
            Action::ReadIceRole { then } => ActionModel::ReadIceRole { then },
            Action::Handshake { endpoint, config, is_client } => ActionModel::Handshake {
                endpoint,
                config: config@,
                is_client,
            },
            Action::ExtractKeys { conn, profile, is_client, then } => ActionModel::ExtractKeys {
                conn,
                profile,
                is_client,
                then,
            },
            Action::NewSession { endpoint, config, is_rtp, then } => ActionModel::NewSession {
                endpoint,
                config: config@,
                is_rtp,
                then,
            },
            Action::Close { target, then } => ActionModel::Close { target, then: then@ },
            Action::Done { result } => ActionModel::Done { result: result_model(result) },
        }
    }
}

} // verus!
