use crate::action::{
    Action, CloseTarget, CloseThen, EndpointThen, Handshake, IceRoleThen, IceStateThen, KeysThen,
    NotifyThen, RtcpWrite, SessionThen,
};
use crate::config::{
    replay_option, ClientAuthType, DTLSConfig, DTLSConfigModel, SessionKeys, SrtpConfig, SrtpPlan,
};
use crate::dtls_parameters::{DTLSParameters, DTLSParametersModel};
use crate::dtls_role::{DTLSRole, DEFAULT_DTLS_ROLE_ANSWER};
use crate::dtls_transport_state::DTLSTransportState;
use crate::error::{flatten_errs, Error};
use crate::ice::{ICERole, ICETransportState, Matcher};
use crate::model::TransportModel;
use crate::outside::{bytes_clone, bytes_from_vec, bytes_new, conn_closed_string};
use crate::protection_profile::{default_srtp_protection_profiles, ProtectionProfile};
use crate::resources::Resources;
use crate::setting_engine::SettingEngine;
use bytes::Bytes;
use std::sync::Arc;
use vstd::prelude::*;

verus! {

/// DTLSTransport allows an application access to information about the DTLS transport over which RTP
/// and RTCP packets are sent and received, as well as other data such as SCTP packets sent and
/// received by data channels.
pub struct DTLSTransport<R: Resources> {
    ice_transport: Option<Arc<R::IceTransport>>,
    certificates: Vec<R::Certificate>,
    setting_engine: Arc<SettingEngine>,
    remote_parameters: DTLSParameters,
    remote_certificate: Bytes,
    state: DTLSTransportState,
    srtp_protection_profile: ProtectionProfile,
    on_state_change_handler: Option<Arc<R::Handler>>,
    conn: Option<Arc<R::Conn>>,
    srtp_session: Option<Arc<R::Session>>,
    srtcp_session: Option<Arc<R::Session>>,
    srtp_endpoint: Option<Arc<R::Endpoint>>,
    srtcp_endpoint: Option<Arc<R::Endpoint>>,
    simulcast_streams: Vec<Arc<R::Stream>>,
    srtp_ready_tx: Option<R::ReadyTx>,
    srtp_ready_rx: Option<R::ReadyRx>,
    dtls_matcher: Option<Matcher>,
}

impl<R: Resources> View for DTLSTransport<R> {
    type V = TransportModel<R>;

    closed spec fn view(&self) -> TransportModel<R> {
        TransportModel {
            ice_transport: self.ice_transport,
            certificates: self.certificates@,
            setting_engine: *self.setting_engine,
            remote_parameters: self.remote_parameters@,
            remote_certificate: crate::outside::bytes_contents(self.remote_certificate),
            state: self.state,
            srtp_protection_profile: self.srtp_protection_profile,
            on_state_change_handler: self.on_state_change_handler,
            conn: self.conn,
            srtp_session: self.srtp_session,
            srtcp_session: self.srtcp_session,
            srtp_endpoint: self.srtp_endpoint,
            srtcp_endpoint: self.srtcp_endpoint,
            simulcast_streams: self.simulcast_streams@,
            srtp_ready_tx: self.srtp_ready_tx,
            srtp_ready_rx: self.srtp_ready_rx,
            dtls_matcher: self.dtls_matcher,
        }
    }
}

impl<R: Resources> Default for DTLSTransport<R> {
    /// A transport that nothing was configured for.
    fn default() -> (transport: DTLSTransport<R>)
        ensures
            transport@.wf(),
            transport@.setting_engine.is_initial(),
            transport@ == TransportModel::<R>::unconfigured(transport@.setting_engine),
    {
        DTLSTransport {
            ice_transport: None,
            certificates: Vec::new(),
            setting_engine: Arc::new(SettingEngine::default()),
            remote_parameters: DTLSParameters::default(),
            remote_certificate: bytes_new(),
            state: DTLSTransportState::Unspecified,
            srtp_protection_profile: ProtectionProfile::default(),
            on_state_change_handler: None,
            conn: None,
            srtp_session: None,
            srtcp_session: None,
            srtp_endpoint: None,
            srtcp_endpoint: None,
            simulcast_streams: Vec::new(),
            srtp_ready_tx: None,
            srtp_ready_rx: None,
            dtls_matcher: None,
        }
    }
}

impl<R: Resources> DTLSTransport<R> {
    /// A new transport over an ICE transport, with its local certificates, the settings of the user
    /// and the two sides of the signal that SRTP is ready.
    pub fn new(
        ice_transport: Arc<R::IceTransport>,
        certificates: Vec<R::Certificate>,
        setting_engine: Arc<SettingEngine>,
        srtp_ready_tx: R::ReadyTx,
        srtp_ready_rx: R::ReadyRx,
    ) -> (transport: DTLSTransport<R>)
        ensures
            transport@.wf(),
            transport@ == (TransportModel {
                ice_transport: Some(ice_transport),
                certificates: certificates@,
                state: DTLSTransportState::New,
                srtp_ready_tx: Some(srtp_ready_tx),
                srtp_ready_rx: Some(srtp_ready_rx),
                dtls_matcher: Some(Matcher::Dtls),
                ..TransportModel::<R>::unconfigured(*setting_engine)
            }),
    {
        let mut transport = DTLSTransport::<R>::default();
        transport.ice_transport = Some(ice_transport);
        transport.certificates = certificates;
        transport.setting_engine = setting_engine;
        transport.srtp_ready_tx = Some(srtp_ready_tx);
        transport.srtp_ready_rx = Some(srtp_ready_rx);
        transport.state = DTLSTransportState::New;
        transport.dtls_matcher = Some(Matcher::Dtls);
        transport
    }

    /// The DTLS connection, once the transport has been connected.
    pub fn conn(&self) -> (conn: Option<Arc<R::Conn>>)
        ensures
            conn == self@.conn,
    {
        match &self.conn {
            Some(conn) => Some(Arc::clone(conn)),
            None => None,
        }
    }

    /// The currently-configured ICE transport, or None if one has not been configured.
    pub fn ice_transport(&self) -> (ice_transport: Option<Arc<R::IceTransport>>)
        ensures
            ice_transport == self@.ice_transport,
    {
        match &self.ice_transport {
            Some(ice_transport) => Some(Arc::clone(ice_transport)),
            None => None,
        }
    }

    /// Whether there is a local certificate; a handshake needs one.
    pub fn has_certificate(&self) -> (has: bool)
        ensures
            has == (self@.certificates.len() > 0),
    {
        self.certificates.len() > 0
    }

    /// Takes on a state, and has the handler fired with it where there is one.
    fn state_change(&mut self, state: DTLSTransportState, then: NotifyThen<R>) -> (action: Action<R>)
        ensures
            (final(self)@, action@) == old(self)@.change_state(state, then@),
    {
        self.state = state;
        match &self.on_state_change_handler {
            Some(handler) => Action::Notify { handler: Arc::clone(handler), state, then },
            None => self.resume_notified(then),
        }
    }

    /// Sets the handler that is fired when the DTLS connection state changes.
    pub fn on_state_change(&mut self, f: R::Handler)
        ensures
            final(self)@ == (TransportModel {
                on_state_change_handler: Some(Arc::new(f)),
                ..old(self)@
            }),
    {
        self.on_state_change_handler = Some(Arc::new(f));
    }

    /// The current state of the transport.
    pub fn state(&self) -> (state: DTLSTransportState)
        ensures
            state == self@.state,
    {
        self.state
    }

    /// What becomes of an RTCP packet for the connected peer: it goes out through the SRTCP session.
    /// If no peer is connected it is discarded.
    pub fn write_rtcp<P>(&self, pkt: P) -> (write: RtcpWrite<R, P>)
        ensures
            write == match self@.srtcp_session {
                Some(session) => RtcpWrite::<R, P>::Send { session, pkt },
                None => RtcpWrite::Discard { written: 0 },
            },
    {
        match &self.srtcp_session {
            Some(session) => RtcpWrite::Send { session: Arc::clone(session), pkt },
            None => RtcpWrite::Discard { written: 0 },
        }
    }

    /// The DTLS parameters of the local transport upon construction. The role is always the default
    /// one, and there are no fingerprints.
    pub fn get_local_parameters(&self) -> (parameters: Result<DTLSParameters, Error<R::Failure>>)
        ensures
            parameters is Ok,
            parameters->Ok_0@ == (DTLSParametersModel {
                role: DTLSRole::Auto,
                fingerprints: Seq::empty(),
            }),
    {
        Ok(DTLSParameters { role: DTLSRole::Auto, fingerprints: Vec::new() })
    }

    /// The certificate in use by the remote side; empty prior to its selection.
    pub fn get_remote_certificate(&self) -> (certificate: Bytes)
        ensures
            crate::outside::bytes_contents(certificate) == self@.remote_certificate,
            self@.wf() && self@.conn is None ==> crate::outside::bytes_contents(certificate).len()
                == 0,
    {
        bytes_clone(&self.remote_certificate)
    }

    /// The session for RTP, where there is one.
    pub fn get_srtp_session(&self) -> (session: Option<Arc<R::Session>>)
        ensures
            session == self@.srtp_session,
    {
        match &self.srtp_session {
            Some(session) => Some(Arc::clone(session)),
            None => None,
        }
    }

    /// The session for RTCP, where there is one.
    pub fn get_srtcp_session(&self) -> (session: Option<Arc<R::Session>>)
        ensures
            session == self@.srtcp_session,
    {
        match &self.srtcp_session {
            Some(session) => Some(Arc::clone(session)),
            None => None,
        }
    }

    /// The role of the transport when the ICE transport has this role.
    pub fn role(&self, ice_role: ICERole) -> (role: DTLSRole)
        ensures
            role == self@.role(ice_role),
    {
        // If remote has an explicit role use the inverse
        match self.remote_parameters.role {
            DTLSRole::Client => {
                return DTLSRole::Server;
            },
            DTLSRole::Server => {
                return DTLSRole::Client;
            },
            _ => {},
        }

        // If the settings have an explicit role
        match self.setting_engine.answering_dtls_role {
            DTLSRole::Server => {
                return DTLSRole::Server;
            },
            DTLSRole::Client => {
                return DTLSRole::Client;
            },
            _ => {},
        }

        // Remote was auto and no explicit role was configured
        if ice_role == ICERole::Controlling {
            return DTLSRole::Server;
        }
        DEFAULT_DTLS_ROLE_ANSWER
    }

    /// Refuses an ICE transport that has not started.
    pub fn ensure_ice_conn(&self, ice_state: ICETransportState) -> (result: Result<
        (),
        Error<R::Failure>,
    >)
        ensures
            result is Ok <==> ice_state != ICETransportState::New,
            result matches Err(error) ==> error is ErrICEConnectionNotStarted,
    {
        if ice_state == ICETransportState::New {
            Err(Error::ErrICEConnectionNotStarted)
        } else {
            Ok(())
        }
    }

    /// Accepts every remote certificate: fingerprints are not compared.
    pub fn validate_fingerprint(&self, _remote_cert: &[u8]) -> (result: Result<
        (),
        Error<R::Failure>,
    >)
        ensures
            result is Ok,
    {
        Ok(())
    }

    /// Keeps a stream, to be closed when the transport stops.
    pub fn store_simulcast_stream(&mut self, stream: Arc<R::Stream>)
        ensures
            final(self)@ == (TransportModel {
                simulcast_streams: old(self)@.simulcast_streams.push(stream),
                ..old(self)@
            }),
    {
        self.simulcast_streams.push(stream);
    }

    /// Starts DTLS transport negotiation with the parameters of the remote DTLS transport.
    pub fn start(&self, remote_parameters: DTLSParameters) -> (action: Action<R>)
        ensures
            action@ == self@.start(remote_parameters),
    {
        Action::NewEndpoint {
            matcher: Matcher::Dtls,
            then: EndpointThen::Dtls { remote_parameters },
        }
    }

    /// Goes on with what the ICE transport gave as an endpoint. The last endpoint leads to the
    /// handshake, which needs a local certificate.
    pub fn resume_endpoint(&mut self, then: EndpointThen<R>, reply: Option<Arc<R::Endpoint>>) -> (action:
        Action<R>)
        requires
            old(self)@.wf(),
            then is Srtcp ==> old(self)@.certificates.len() > 0,
        ensures
            final(self)@.wf(),
            (final(self)@, action@) == old(self)@.after_endpoint(then, reply),
    {
        match then {
            EndpointThen::Dtls { remote_parameters } => match reply {
                Some(endpoint) => Action::ReadIceState {
                    then: IceStateThen { endpoint, remote_parameters },
                },
                None => self.fail(
                    Error::Message("ice_transport.new_endpoint failed".to_owned()),
                ),
            },
            EndpointThen::Srtp { endpoint, remote_parameters } => {
                self.srtp_endpoint = reply;
                Action::NewEndpoint {
                    matcher: Matcher::Srtcp,
                    then: EndpointThen::Srtcp { endpoint, remote_parameters },
                }
            },
            EndpointThen::Srtcp { endpoint, remote_parameters } => {
                self.srtcp_endpoint = reply;
                self.remote_parameters = remote_parameters;
                self.state_change(
                    DTLSTransportState::Connecting,
                    NotifyThen::Handshake { endpoint },
                )
            },
        }
    }

    /// Goes on with the state of the ICE transport.
    pub fn resume_ice_state(&self, then: IceStateThen<R>, ice_state: ICETransportState) -> (action:
        Action<R>)
        ensures
            action@ == self@.after_ice_state(then, ice_state),
    {
        match self.ensure_ice_conn(ice_state) {
            Err(error) => {
                return Action::Done { result: Err(error) };
            },
            Ok(_) => {},
        }
        if self.state != DTLSTransportState::New {
            return Action::Done { result: Err(Error::ErrInvalidDTLSStart) };
        }
        Action::NewEndpoint {
            matcher: Matcher::Srtp,
            then: EndpointThen::Srtp {
                endpoint: then.endpoint,
                remote_parameters: then.remote_parameters,
            },
        }
    }

    /// Goes on after the handler was fired.
    pub fn resume_notified(&self, then: NotifyThen<R>) -> (action: Action<R>)
        ensures
            (self@, action@) == self@.after_notified(then@),
    {
        match then {
            NotifyThen::Handshake { endpoint } => Action::ReadIceRole {
                then: IceRoleThen::Handshake { endpoint },
            },
            NotifyThen::StartSrtp => self.start_srtp(),
            NotifyThen::Finish { result } => Action::Done { result },
        }
    }

    /// The role to take in the handshake and how to run it.
    pub fn prepare_transport(&self, ice_role: ICERole) -> (prepared: (DTLSRole, DTLSConfig<R>))
        requires
            self@.certificates.len() > 0,
        ensures
            prepared.0 == self@.role(ice_role),
            prepared.1@.certificates.len() == 1,
            cloned(self@.certificates[0], prepared.1@.certificates[0]),
            prepared.1@ == DTLSConfigModel::<R>::of(
                self@.setting_engine,
                prepared.1@.certificates[0],
                0,
            ),
    {
        let cert = self.certificates[0].clone();
        let srtp_protection_profiles = if self.setting_engine.srtp_protection_profiles.len() > 0 {
            self.setting_engine.srtp_protection_profiles.clone()
        } else {
            default_srtp_protection_profiles()
        };
        let config = DTLSConfig {
            certificates: vec![cert],
            srtp_protection_profiles,
            client_auth: ClientAuthType::RequireAnyClientCert,
            insecure_skip_verify: true,
            replay_protection_window: 0,
        };
        (self.role(ice_role), config)
    }

    /// Goes on with the role of the ICE transport. The handshake needs a local certificate.
    pub fn resume_ice_role(&self, then: IceRoleThen<R>, ice_role: ICERole) -> (action: Action<R>)
        requires
            then is Handshake ==> self@.certificates.len() > 0,
        ensures
            then is Handshake ==> cloned(
                self@.certificates[0],
                action@->Handshake_config.certificates[0],
            ),
            action@ == self@.after_ice_role(
                then,
                ice_role,
                action@->Handshake_config.certificates[0],
            ),
    {
        match then {
            IceRoleThen::Handshake { endpoint } => {
                let (role, mut config) = self.prepare_transport(ice_role);
                if self.setting_engine.replay_protection.dtls != 0 {
                    config.replay_protection_window = self.setting_engine.replay_protection.dtls;
                }
                let is_client = role == DTLSRole::Client;
                Action::Handshake { endpoint, config, is_client }
            },
            IceRoleThen::Srtp { conn, plan } => {
                let is_client = self.role(ice_role) == DTLSRole::Client;
                Action::ExtractKeys {
                    conn,
                    profile: plan.profile,
                    is_client,
                    then: KeysThen { plan },
                }
            },
        }
    }

    /// Ends the negotiation in the state `Failed`.
    fn fail(&mut self, error: Error<R::Failure>) -> (action: Action<R>)
        requires
            old(self)@.wf(),
        ensures
            final(self)@.wf(),
            (final(self)@, action@) == old(self)@.fail(error@),
    {
        self.state_change(DTLSTransportState::Failed, NotifyThen::Finish { result: Err(error) })
    }

    /// Goes on with the outcome of the handshake.
    pub fn resume_handshake(&mut self, reply: Result<Handshake<R>, R::Failure>) -> (action: Action<
        R,
    >)
        requires
            old(self)@.wf(),
        ensures
            final(self)@.wf(),
            (final(self)@, action@) == old(self)@.after_handshake(reply),
    {
        let handshake = match reply {
            Ok(handshake) => handshake,
            Err(failure) => {
                return self.fail(Error::Outside(failure));
            },
        };
        match handshake.srtp_protection_profile.session_profile() {
            Some(profile) => {
                self.srtp_protection_profile = profile;
            },
            None => {
                return self.fail(Error::ErrNoSRTPProtectionProfile);
            },
        }
        if self.setting_engine.disable_certificate_fingerprint_verification {
            return Action::Done { result: Ok(()) };
        }
        // A certificate must have been exchanged
        if handshake.peer_certificates.len() == 0 {
            return self.fail(Error::ErrNoRemoteCertificate);
        }
        self.remote_certificate = bytes_from_vec(handshake.peer_certificates[0].clone());
        self.conn = Some(Arc::new(handshake.conn));
        self.state_change(DTLSTransportState::Connected, NotifyThen::StartSrtp)
    }

    /// Starts the SRTP and SRTCP sessions over the DTLS connection.
    pub fn start_srtp(&self) -> (action: Action<R>)
        ensures
            action@ == self@.start_srtp(),
    {
        let plan = SrtpPlan {
            profile: self.srtp_protection_profile,
            rtp: replay_option(
                self.setting_engine.replay_protection.srtp,
                self.setting_engine.disable_srtp_replay_protection,
            ),
            rtcp: replay_option(
                self.setting_engine.replay_protection.srtcp,
                self.setting_engine.disable_srtcp_replay_protection,
            ),
        };
        match self.conn() {
            Some(conn) => Action::ReadIceRole { then: IceRoleThen::Srtp { conn, plan } },
            None => Action::Done { result: Err(Error::ErrDtlsTransportNotStarted) },
        }
    }

    /// Goes on with the keys that the DTLS connection gave.
    pub fn resume_keys(&mut self, then: KeysThen, reply: Result<SessionKeys, R::Failure>) -> (action:
        Action<R>)
        requires
            old(self)@.wf(),
        ensures
            final(self)@.wf(),
            (final(self)@, action@) == old(self)@.after_keys(
                then,
                match reply {
                    Ok(keys) => Ok(keys@),
                    Err(failure) => Err(failure),
                },
            ),
    {
        let keys = match reply {
            Ok(keys) => keys,
            Err(failure) => {
                return Action::Done { result: Err(Error::Outside(failure)) };
            },
        };
        match &self.srtp_endpoint {
            Some(endpoint) => Action::NewSession {
                endpoint: Arc::clone(endpoint),
                config: SrtpConfig {
                    keys,
                    profile: then.plan.profile,
                    remote_rtp_options: then.plan.rtp,
                    remote_rtcp_options: None,
                },
                is_rtp: true,
                then: SessionThen::Srtp { plan: then.plan },
            },
            None => {
                self.srtp_session = None;
                self.open_srtcp(then.plan)
            },
        }
    }

    /// Opens the SRTCP session where there is an endpoint for it.
    fn open_srtcp(&mut self, plan: SrtpPlan) -> (action: Action<R>)
        requires
            old(self)@.wf(),
        ensures
            final(self)@.wf(),
            (final(self)@, action@) == old(self)@.open_srtcp(plan),
    {
        match &self.srtcp_endpoint {
            Some(endpoint) => Action::NewSession {
                endpoint: Arc::clone(endpoint),
                config: SrtpConfig {
                    keys: SessionKeys::default(),
                    profile: plan.profile,
                    remote_rtp_options: None,
                    remote_rtcp_options: plan.rtcp,
                },
                is_rtp: false,
                then: SessionThen::Srtcp,
            },
            None => {
                self.srtcp_session = None;
                self.srtp_ready()
            },
        }
    }

    /// Gives up the readiness signal: all is ready.
    fn srtp_ready(&mut self) -> (action: Action<R>)
        requires
            old(self)@.wf(),
        ensures
            final(self)@.wf(),
            (final(self)@, action@) == old(self)@.srtp_ready(),
    {
        self.srtp_ready_tx = None;
        Action::Done { result: Ok(()) }
    }

    /// Goes on with a session that was opened.
    pub fn resume_session(&mut self, then: SessionThen, reply: Result<R::Session, R::Failure>) -> (action:
        Action<R>)
        requires
            old(self)@.wf(),
        ensures
            final(self)@.wf(),
            (final(self)@, action@) == old(self)@.after_session(then, reply),
    {
        let session = match reply {
            Ok(session) => session,
            Err(failure) => {
                return Action::Done { result: Err(Error::Outside(failure)) };
            },
        };
        match then {
            SessionThen::Srtp { plan } => {
                self.srtp_session = Some(Arc::new(session));
                self.open_srtcp(plan)
            },
            SessionThen::Srtcp => {
                self.srtcp_session = Some(Arc::new(session));
                self.srtp_ready()
            },
        }
    }

    /// Stops and closes the transport: the sessions, the streams and the connection, in this order.
    pub fn stop(&mut self) -> (action: Action<R>)
        requires
            old(self)@.wf(),
        ensures
            final(self)@.wf(),
            (final(self)@, action@) == old(self)@.stop(),
    {
        // Try closing everything and collect the errors
        let errs: Vec<String> = Vec::new();
        proof {
            assert(crate::error::texts(errs@) =~= Seq::<Seq<char>>::empty());
        }
        match self.srtp_session.take() {
            Some(session) => Action::Close {
                target: CloseTarget::Session(session),
                then: CloseThen::SrtpSession { errs },
            },
            None => self.stop_srtcp(errs),
        }
    }

    /// Closes the session for RTCP, and what comes after it.
    fn stop_srtcp(&mut self, errs: Vec<String>) -> (action: Action<R>)
        requires
            old(self)@.wf(),
        ensures
            final(self)@.wf(),
            (final(self)@, action@) == old(self)@.stop_srtcp(crate::error::texts(errs@)),
    {
        match self.srtcp_session.take() {
            Some(session) => Action::Close {
                target: CloseTarget::Session(session),
                then: CloseThen::SrtcpSession { errs },
            },
            None => {
                let streams = self.streams();
                self.stop_streams(streams, errs)
            },
        }
    }

    /// The streams that a shutdown closes.
    fn streams(&self) -> (streams: Vec<Arc<R::Stream>>)
        ensures
            streams@ == self@.simulcast_streams,
    {
        let mut streams: Vec<Arc<R::Stream>> = Vec::new();
        let mut next: usize = 0;
        while next < self.simulcast_streams.len()
            invariant
                next <= self.simulcast_streams.len(),
                streams@ == self.simulcast_streams@.take(next as int),
            decreases self.simulcast_streams.len() - next,
        {
            streams.push(Arc::clone(&self.simulcast_streams[next]));
            next = next + 1;
        }
        streams
    }

    /// Closes the rest of the streams, and what comes after them.
    fn stop_streams(&mut self, rest: Vec<Arc<R::Stream>>, errs: Vec<String>) -> (action: Action<R>)
        requires
            old(self)@.wf(),
        ensures
            final(self)@.wf(),
            (final(self)@, action@) == old(self)@.stop_streams(
                rest@,
                crate::error::texts(errs@),
            ),
    {
        let mut rest = rest;
        if rest.len() > 0 {
            let stream = rest.remove(0);
            Action::Close {
                target: CloseTarget::Stream(stream),
                then: CloseThen::Stream { rest, errs },
            }
        } else {
            self.stop_conn(errs)
        }
    }

    /// Closes the connection, and what comes after it.
    fn stop_conn(&mut self, errs: Vec<String>) -> (action: Action<R>)
        requires
            old(self)@.wf(),
        ensures
            final(self)@.wf(),
            (final(self)@, action@) == old(self)@.stop_conn(crate::error::texts(errs@)),
    {
        match self.conn() {
            Some(conn) => Action::Close {
                target: CloseTarget::Conn(conn),
                then: CloseThen::Conn { errs },
            },
            None => self.stop_end(errs),
        }
    }

    /// Ends a shutdown.
    fn stop_end(&mut self, errs: Vec<String>) -> (action: Action<R>)
        requires
            old(self)@.wf(),
        ensures
            final(self)@.wf(),
            (final(self)@, action@) == old(self)@.stop_end(crate::error::texts(errs@)),
    {
        let result = flatten_errs(&errs);
        self.state_change(DTLSTransportState::Closed, NotifyThen::Finish { result })
    }

    /// Goes on after a target of the shutdown was closed, with the text of the error if that failed.
    pub fn resume_closed(&mut self, then: CloseThen<R>, reply: Result<(), String>) -> (action: Action<
        R,
    >)
        requires
            old(self)@.wf(),
        ensures
            final(self)@.wf(),
            (final(self)@, action@) == old(self)@.after_closed(
                then@,
                match reply {
                    Ok(_) => None,
                    Err(text) => Some(text@),
                },
            ),
    {
        match then {
            CloseThen::SrtpSession { errs } => {
                let errs = with_error(errs, reply);
                self.stop_srtcp(errs)
            },
            CloseThen::SrtcpSession { errs } => {
                let errs = with_error(errs, reply);
                let streams = self.streams();
                self.stop_streams(streams, errs)
            },
            CloseThen::Stream { rest, errs } => {
                let errs = with_error(errs, reply);
                self.stop_streams(rest, errs)
            },
            CloseThen::Conn { errs } => {
                // The connection may be closed on sctp close
                let errs = match reply {
                    Ok(_) => errs,
                    Err(text) => if text == conn_closed_string() {
                        errs
                    } else {
                        with_error(errs, Err(text))
                    },
                };
                self.stop_end(errs)
            },
        }
    }
}

/// Notes the text of an error.
fn with_error(errs: Vec<String>, reply: Result<(), String>) -> (all: Vec<String>)
    ensures
        crate::error::texts(all@) == crate::model::noted(
            crate::error::texts(errs@),
            match reply {
                Ok(_) => None,
                Err(text) => Some(text@),
            },
        ),
{
    let mut errs = errs;
    match reply {
        Ok(_) => {},
        Err(text) => {
            proof {
                assert(crate::error::texts(errs@.push(text)) =~= crate::error::texts(errs@).push(
                    text@,
                ));
            }
            errs.push(text);
        },
    }
    errs
}

} // verus!
