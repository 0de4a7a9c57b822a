//! The mathematical model of a transport: what it holds, and how each operation and each reply takes
//! it from one state to the next.
use crate::action::{
    ActionModel, CloseTarget, CloseThenModel, EndpointThen, Handshake, IceRoleThen, IceStateThen,
    KeysThen, NotifyThenModel, SessionThen,
};
use crate::config::{DTLSConfigModel, SessionKeysModel, SrtpConfigModel, SrtpPlan};
use crate::dtls_parameters::{DTLSParameters, DTLSParametersModel};
use crate::dtls_role::{DTLSRole, DEFAULT_DTLS_ROLE_ANSWER};
use crate::dtls_transport_state::DTLSTransportState;
use crate::error::{flattened, ErrorModel};
use crate::ice::{ICERole, ICETransportState, Matcher};
use crate::outside::conn_closed_text;
use crate::protection_profile::{session_profile, ProtectionProfile};
use crate::resources::Resources;
use crate::setting_engine::SettingEngine;
use std::sync::Arc;
use vstd::prelude::*;

verus! {

/// Everything that a transport remembers.
#[verifier::ext_equal]
pub struct TransportModel<R: Resources> {
    pub ice_transport: Option<Arc<R::IceTransport>>,
    pub certificates: Seq<R::Certificate>,
    pub setting_engine: SettingEngine,
    pub remote_parameters: DTLSParametersModel,
    pub remote_certificate: Seq<u8>,
    pub state: DTLSTransportState,
    pub srtp_protection_profile: ProtectionProfile,
    pub on_state_change_handler: Option<Arc<R::Handler>>,
    pub conn: Option<Arc<R::Conn>>,
    pub srtp_session: Option<Arc<R::Session>>,
    pub srtcp_session: Option<Arc<R::Session>>,
    pub srtp_endpoint: Option<Arc<R::Endpoint>>,
    pub srtcp_endpoint: Option<Arc<R::Endpoint>>,
    pub simulcast_streams: Seq<Arc<R::Stream>>,
    pub srtp_ready_tx: Option<R::ReadyTx>,
    pub srtp_ready_rx: Option<R::ReadyRx>,
    pub dtls_matcher: Option<Matcher>,
}

/// The text of the error when the ICE transport gives no endpoint for the handshake.
pub open spec fn no_endpoint_text() -> Seq<char> {
    "ice_transport.new_endpoint failed"@
}

/// The texts of the errors so far, and of one that came now.
pub open spec fn noted(errs: Seq<Seq<char>>, error: Option<Seq<char>>) -> Seq<Seq<char>> {
    match error {
        Some(text) => errs.push(text),
        None => errs,
    }
}

/// The role of a transport. The inverse of the remote peer's, where that is explicit; else the one
/// of the settings, where that is explicit; else the ICE controlling peer is the server, and any
/// other peer takes the default of an answerer.
pub open spec fn resolved_role(remote: DTLSRole, answering: DTLSRole, ice: ICERole) -> DTLSRole {
    if remote.is_explicit() {
        remote.inverse()
    } else if answering.is_explicit() {
        answering
    } else if ice == ICERole::Controlling {
        DTLSRole::Server
    } else {
        DEFAULT_DTLS_ROLE_ANSWER
    }
}

impl<R: Resources> TransportModel<R> {
    /// A transport that nothing was configured for but the settings.
    pub open spec fn unconfigured(setting_engine: SettingEngine) -> TransportModel<R> {
        TransportModel {
            ice_transport: None,
            certificates: Seq::empty(),
            setting_engine,
            remote_parameters: DTLSParametersModel::initial(),
            remote_certificate: Seq::empty(),
            state: DTLSTransportState::Unspecified,
            srtp_protection_profile: ProtectionProfile::Aes128CmHmacSha1_80,
            on_state_change_handler: None,
            conn: None,
            srtp_session: None,
            srtcp_session: None,
            srtp_endpoint: None,
            srtcp_endpoint: None,
            simulcast_streams: Seq::empty(),
            srtp_ready_tx: None,
            srtp_ready_rx: None,
            dtls_matcher: None,
        }
    }

    /// What holds of every transport, whatever was done with it.
    pub open spec fn wf(self) -> bool {
        // A transport that is new has no connection yet, and one that is connected has one.
        &&& self.state == DTLSTransportState::New ==> self.conn is None
        &&& self.state == DTLSTransportState::Connected ==> self.conn is Some
        // The remote certificate is selected along with the connection.
        &&& self.conn is None ==> self.remote_certificate.len() == 0
    }

    /// The role of the transport when the ICE transport has this role.
    pub open spec fn role(self, ice: ICERole) -> DTLSRole {
        resolved_role(self.remote_parameters.role, self.setting_engine.answering_dtls_role, ice)
    }

    /// How SRTP sessions would be run now.
    pub open spec fn srtp_plan(self) -> SrtpPlan {
        SrtpPlan::of(self.srtp_protection_profile, self.setting_engine)
    }

    // ---- changes of state ----

    /// The transport takes on a state. Where there is a handler, it is fired before `then`.
    pub open spec fn change_state(
        self,
        state: DTLSTransportState,
        then: NotifyThenModel<R>,
    ) -> (TransportModel<R>, ActionModel<R>) {
        let changed = TransportModel { state, ..self };
        match self.on_state_change_handler {
            Some(handler) => (changed, ActionModel::Notify { handler, state, then }),
            None => changed.after_notified(then),
        }
    }

    /// What follows a change of state.
    pub open spec fn after_notified(self, then: NotifyThenModel<R>) -> (
        TransportModel<R>,
        ActionModel<R>,
    ) {
        match then {
            NotifyThenModel::Handshake { endpoint } => (
                self,
                ActionModel::ReadIceRole { then: IceRoleThen::Handshake { endpoint } },
            ),
            NotifyThenModel::StartSrtp => (self, self.start_srtp()),
            NotifyThenModel::Finish { result } => (self, ActionModel::Done { result }),
        }
    }

    /// The negotiation ends in the state `Failed` with an error.
    pub open spec fn fail(self, error: ErrorModel<R::Failure>) -> (
        TransportModel<R>,
        ActionModel<R>,
    ) {
        self.change_state(
            DTLSTransportState::Failed,
            NotifyThenModel::Finish { result: Err(error) },
        )
    }

    // ---- negotiation ----

    /// Negotiation begins with an endpoint for the handshake.
    pub open spec fn start(self, remote_parameters: DTLSParameters) -> ActionModel<R> {
        ActionModel::NewEndpoint {
            matcher: Matcher::Dtls,
            then: EndpointThen::Dtls { remote_parameters },
        }
    }

    /// The ICE transport gave an endpoint, or none. Negotiation fails without one for the handshake;
    /// those for SRTP and SRTCP are kept, and can do without. After the last of them the remote
    /// parameters are kept and the transport is connecting.
    pub open spec fn after_endpoint(
        self,
        then: EndpointThen<R>,
        reply: Option<Arc<R::Endpoint>>,
    ) -> (TransportModel<R>, ActionModel<R>) {
        match then {
            EndpointThen::Dtls { remote_parameters } => match reply {
                Some(endpoint) => (
                    self,
                    ActionModel::ReadIceState {
                        then: IceStateThen { endpoint, remote_parameters },
                    },
                ),
                None => self.fail(ErrorModel::Message(no_endpoint_text())),
            },
            EndpointThen::Srtp { endpoint, remote_parameters } => (
                TransportModel { srtp_endpoint: reply, ..self },
                ActionModel::NewEndpoint {
                    matcher: Matcher::Srtcp,
                    then: EndpointThen::Srtcp { endpoint, remote_parameters },
                },
            ),
            EndpointThen::Srtcp { endpoint, remote_parameters } => (TransportModel {
                srtcp_endpoint: reply,
                remote_parameters: remote_parameters@,
                ..self
            }).change_state(
                DTLSTransportState::Connecting,
                NotifyThenModel::Handshake { endpoint },
            ),
        }
    }

    /// Negotiation goes on only over an ICE transport that has started, and on a new transport.
    pub open spec fn after_ice_state(
        self,
        then: IceStateThen<R>,
        ice_state: ICETransportState,
    ) -> ActionModel<R> {
        if ice_state == ICETransportState::New {
            ActionModel::Done { result: Err(ErrorModel::ErrICEConnectionNotStarted) }
        } else if self.state != DTLSTransportState::New {
            ActionModel::Done { result: Err(ErrorModel::ErrInvalidDTLSStart) }
        } else {
            ActionModel::NewEndpoint {
                matcher: Matcher::Srtp,
                then: EndpointThen::Srtp {
                    endpoint: then.endpoint,
                    remote_parameters: then.remote_parameters,
                },
            }
        }
    }

    /// With the ICE role the transport knows its own, and can run the handshake or export the keys.
    /// `certificate` is a clone of its first certificate.
    pub open spec fn after_ice_role(
        self,
        then: IceRoleThen<R>,
        ice_role: ICERole,
        certificate: R::Certificate,
    ) -> ActionModel<R> {
        let is_client = self.role(ice_role) == DTLSRole::Client;
        match then {
            IceRoleThen::Handshake { endpoint } => ActionModel::Handshake {
                endpoint,
                config: DTLSConfigModel::of(
                    self.setting_engine,
                    certificate,
                    self.setting_engine.replay_protection.dtls,
                ),
                is_client,
            },
            IceRoleThen::Srtp { conn, plan } => ActionModel::ExtractKeys {
                conn,
                profile: plan.profile,
                is_client,
                then: KeysThen { plan },
            },
        }
    }

    /// What a finished handshake leads to. Negotiation fails with the handshake, or if that selected
    /// no profile for the sessions. Where the settings skip the verification of fingerprints,
    /// negotiation ends there, and the connection is dropped. Otherwise it fails if the peer sent no
    /// certificate; and else the first one and the connection are kept, the transport is connected,
    /// and the sessions come next.
    pub open spec fn after_handshake(self, reply: Result<Handshake<R>, R::Failure>) -> (
        TransportModel<R>,
        ActionModel<R>,
    ) {
        match reply {
            Err(failure) => self.fail(ErrorModel::Outside(failure)),
            Ok(handshake) => match session_profile(handshake.srtp_protection_profile) {
                None => self.fail(ErrorModel::ErrNoSRTPProtectionProfile),
                Some(profile) => {
                    let selected = TransportModel { srtp_protection_profile: profile, ..self };
                    if self.setting_engine.disable_certificate_fingerprint_verification {
                        (selected, ActionModel::Done { result: Ok(()) })
                    } else if handshake.peer_certificates@.len() == 0 {
                        selected.fail(ErrorModel::ErrNoRemoteCertificate)
                    } else {
                        (TransportModel {
                            remote_certificate: handshake.peer_certificates@[0]@,
                            conn: Some(Arc::new(handshake.conn)),
                            ..selected
                        }).change_state(
                            DTLSTransportState::Connected,
                            NotifyThenModel::StartSrtp,
                        )
                    }
                },
            },
        }
    }

    // ---- SRTP sessions ----

    /// The sessions need the DTLS connection, and the role to export its keys with.
    pub open spec fn start_srtp(self) -> ActionModel<R> {
        match self.conn {
            Some(conn) => ActionModel::ReadIceRole {
                then: IceRoleThen::Srtp { conn, plan: self.srtp_plan() },
            },
            None => ActionModel::Done { result: Err(ErrorModel::ErrDtlsTransportNotStarted) },
        }
    }

    /// With keys the SRTP session is opened, where there is an endpoint for it; where there is none,
    /// there is no SRTP session, and the SRTCP session comes next.
    pub open spec fn after_keys(self, then: KeysThen, reply: Result<SessionKeysModel, R::Failure>)
        -> (TransportModel<R>, ActionModel<R>) {
        match reply {
            Err(failure) => (
                self,
                ActionModel::Done { result: Err(ErrorModel::Outside(failure)) },
            ),
            Ok(keys) => match self.srtp_endpoint {
                Some(endpoint) => (
                    self,
                    ActionModel::NewSession {
                        endpoint,
                        config: SrtpConfigModel::srtp(then.plan, keys),
                        is_rtp: true,
                        then: SessionThen::Srtp { plan: then.plan },
                    },
                ),
                None => (TransportModel { srtp_session: None, ..self }).open_srtcp(then.plan),
            },
        }
    }

    /// The SRTCP session is opened, where there is an endpoint for it; where there is none, there is
    /// no SRTCP session, and all is ready.
    pub open spec fn open_srtcp(self, plan: SrtpPlan) -> (TransportModel<R>, ActionModel<R>) {
        match self.srtcp_endpoint {
            Some(endpoint) => (
                self,
                ActionModel::NewSession {
                    endpoint,
                    config: SrtpConfigModel::srtcp(plan),
                    is_rtp: false,
                    then: SessionThen::Srtcp,
                },
            ),
            None => (TransportModel { srtcp_session: None, ..self }).srtp_ready(),
        }
    }

    /// All is ready: the readiness signal is given up, and negotiation is over.
    pub open spec fn srtp_ready(self) -> (TransportModel<R>, ActionModel<R>) {
        (TransportModel { srtp_ready_tx: None, ..self }, ActionModel::Done { result: Ok(()) })
    }

    /// A session that was opened is kept, and the next step follows. One that failed ends the
    /// operation, and leaves the transport as it is.
    pub open spec fn after_session(self, then: SessionThen, reply: Result<R::Session, R::Failure>)
        -> (TransportModel<R>, ActionModel<R>) {
        match reply {
            Err(failure) => (
                self,
                ActionModel::Done { result: Err(ErrorModel::Outside(failure)) },
            ),
            Ok(session) => match then {
                SessionThen::Srtp { plan } => (TransportModel {
                    srtp_session: Some(Arc::new(session)),
                    ..self
                }).open_srtcp(plan),
                SessionThen::Srtcp => (TransportModel {
                    srtcp_session: Some(Arc::new(session)),
                    ..self
                }).srtp_ready(),
            },
        }
    }

    // ---- shutdown ----

    /// A shutdown begins with the SRTP session, which the transport gives up.
    pub open spec fn stop(self) -> (TransportModel<R>, ActionModel<R>) {
        match self.srtp_session {
            Some(session) => (
                TransportModel { srtp_session: None, ..self },
                ActionModel::Close {
                    target: CloseTarget::Session(session),
                    then: CloseThenModel::SrtpSession { errs: Seq::empty() },
                },
            ),
            None => self.stop_srtcp(Seq::empty()),
        }
    }

    /// Then comes the SRTCP session, which the transport gives up too.
    pub open spec fn stop_srtcp(self, errs: Seq<Seq<char>>) -> (TransportModel<R>, ActionModel<R>) {
        match self.srtcp_session {
            Some(session) => (
                TransportModel { srtcp_session: None, ..self },
                ActionModel::Close {
                    target: CloseTarget::Session(session),
                    then: CloseThenModel::SrtcpSession { errs },
                },
            ),
            None => self.stop_streams(self.simulcast_streams, errs),
        }
    }

    /// Then come the streams, one after the other.
    pub open spec fn stop_streams(self, rest: Seq<Arc<R::Stream>>, errs: Seq<Seq<char>>) -> (
        TransportModel<R>,
        ActionModel<R>,
    ) {
        if rest.len() > 0 {
            (
                self,
                ActionModel::Close {
                    target: CloseTarget::Stream(rest[0]),
                    then: CloseThenModel::Stream { rest: rest.remove(0), errs },
                },
            )
        } else {
            self.stop_conn(errs)
        }
    }

    /// Then comes the DTLS connection.
    pub open spec fn stop_conn(self, errs: Seq<Seq<char>>) -> (TransportModel<R>, ActionModel<R>) {
        match self.conn {
            Some(conn) => (
                self,
                ActionModel::Close {
                    target: CloseTarget::Conn(conn),
                    then: CloseThenModel::Conn { errs },
                },
            ),
            None => self.stop_end(errs),
        }
    }

    /// At the end the transport is closed, and the errors are reported as one.
    pub open spec fn stop_end(self, errs: Seq<Seq<char>>) -> (TransportModel<R>, ActionModel<R>) {
        self.change_state(
            DTLSTransportState::Closed,
            NotifyThenModel::Finish { result: flattened(errs) },
        )
    }

    /// A target was closed, or came to an error, which is noted. That the DTLS connection was closed
    /// already is no error.
    pub open spec fn after_closed(self, then: CloseThenModel<R>, error: Option<Seq<char>>) -> (
        TransportModel<R>,
        ActionModel<R>,
    ) {
        match then {
            CloseThenModel::SrtpSession { errs } => self.stop_srtcp(noted(errs, error)),
            CloseThenModel::SrtcpSession { errs } => self.stop_streams(
                self.simulcast_streams,
                noted(errs, error),
            ),
            CloseThenModel::Stream { rest, errs } => self.stop_streams(rest, noted(errs, error)),
            CloseThenModel::Conn { errs } => if error == Some(conn_closed_text()) {
                self.stop_end(errs)
            } else {
                self.stop_end(noted(errs, error))
            },
        }
    }
}

} // verus!
