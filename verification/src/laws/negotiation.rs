//! How a whole negotiation ends, given everything that it meets on its way.
use crate::action::{
    ActionModel, EndpointThen, Handshake, IceRoleThen, IceStateThen, KeysThen, NotifyThenModel,
    SessionThen,
};
use crate::config::{SessionKeysModel, SrtpPlan};
use crate::dtls_parameters::DTLSParameters;
use crate::dtls_transport_state::DTLSTransportState;
use crate::error::ErrorModel;
use crate::ice::{ICERole, ICETransportState};
use crate::model::{no_endpoint_text, TransportModel};
use crate::protection_profile::{session_profile, ProtectionProfile};
use crate::resources::Resources;
use std::sync::Arc;
use vstd::prelude::*;

verus! {

/// What a negotiation meets: the reply to each action that it may ask for.
pub struct Replies<R: Resources> {
    pub dtls_endpoint: Option<Arc<R::Endpoint>>,
    pub ice_state: ICETransportState,
    pub srtp_endpoint: Option<Arc<R::Endpoint>>,
    pub srtcp_endpoint: Option<Arc<R::Endpoint>>,
    pub handshake_ice_role: ICERole,
    /// The clone of the first certificate that the handshake presents.
    pub certificate: R::Certificate,
    pub handshake: Result<Handshake<R>, R::Failure>,
    pub srtp_ice_role: ICERole,
    pub keys: Result<SessionKeysModel, R::Failure>,
    pub srtp_session: Result<R::Session, R::Failure>,
    pub srtcp_session: Result<R::Session, R::Failure>,
}

/// How an operation ended.
#[verifier::ext_equal]
pub struct Outcome<R: Resources> {
    pub transport: TransportModel<R>,
    pub result: Option<Result<(), ErrorModel<R::Failure>>>,
    /// What handlers were fired with, in order.
    pub fired: Seq<(Arc<R::Handler>, DTLSTransportState)>,
}

impl<R: Resources> Outcome<R> {
    /// The operation came to its end, with an error.
    pub open spec fn ends_with(self, error: ErrorModel<R::Failure>) -> bool {
        self.result == Some(Err::<(), ErrorModel<R::Failure>>(error))
    }

    /// The operation came to its end, without an error.
    pub open spec fn ends_well(self) -> bool {
        self.result == Some(Ok::<(), ErrorModel<R::Failure>>(()))
    }
}

/// How many actions of a negotiation can follow at most.
pub open spec fn rank<R: Resources>(action: ActionModel<R>) -> nat {
    match action {
        ActionModel::NewEndpoint { matcher, then } => match then {
            EndpointThen::Dtls { .. } => 12,
            EndpointThen::Srtp { .. } => 10,
            EndpointThen::Srtcp { .. } => 9,
        },
        ActionModel::ReadIceState { .. } => 11,
        ActionModel::Notify { handler, state, then } => match then {
            NotifyThenModel::Handshake { .. } => 8,
            NotifyThenModel::StartSrtp => 5,
            NotifyThenModel::Finish { .. } => 1,
        },
        ActionModel::ReadIceRole { then } => match then {
            IceRoleThen::Handshake { .. } => 7,
            IceRoleThen::Srtp { .. } => 4,
        },
        ActionModel::Handshake { .. } => 6,
        ActionModel::ExtractKeys { .. } => 3,
        ActionModel::NewSession { endpoint, config, is_rtp, then } => match then {
            SessionThen::Srtp { .. } => 2,
            SessionThen::Srtcp => 1,
        },
        _ => 0,
    }
}

/// The end of a negotiation that has come to `action`, when each action gets its reply. An action of
/// a shutdown gets none.
pub open spec fn run<R: Resources>(
    m: TransportModel<R>,
    action: ActionModel<R>,
    replies: Replies<R>,
) -> Outcome<R>
    decreases rank(action),
{
    match action {
        ActionModel::NewEndpoint { matcher, then } => {
            let reply = match then {
                EndpointThen::Dtls { .. } => replies.dtls_endpoint,
                EndpointThen::Srtp { .. } => replies.srtp_endpoint,
                EndpointThen::Srtcp { .. } => replies.srtcp_endpoint,
            };
            let (next, action) = m.after_endpoint(then, reply);
            run(next, action, replies)
        },
        ActionModel::ReadIceState { then } => run(
            m,
            m.after_ice_state(then, replies.ice_state),
            replies,
        ),
        ActionModel::Notify { handler, state, then } => {
            let (next, action) = m.after_notified(then);
            let rest = run(next, action, replies);
            Outcome { fired: seq![(handler, state)] + rest.fired, ..rest }
        },
        ActionModel::ReadIceRole { then } => {
            let ice_role = match then {
                IceRoleThen::Handshake { .. } => replies.handshake_ice_role,
                IceRoleThen::Srtp { .. } => replies.srtp_ice_role,
            };
            run(m, m.after_ice_role(then, ice_role, replies.certificate), replies)
        },
        ActionModel::Handshake { .. } => {
            let (next, action) = m.after_handshake(replies.handshake);
            run(next, action, replies)
        },
        ActionModel::ExtractKeys { conn, profile, is_client, then } => {
            let (next, action) = m.after_keys(then, replies.keys);
            run(next, action, replies)
        },
        ActionModel::NewSession { endpoint, config, is_rtp, then } => {
            let reply = match then {
                SessionThen::Srtp { .. } => replies.srtp_session,
                SessionThen::Srtcp => replies.srtcp_session,
            };
            let (next, action) = m.after_session(then, reply);
            run(next, action, replies)
        },
        ActionModel::Close { .. } => Outcome { transport: m, result: None, fired: Seq::empty() },
        ActionModel::Done { result } => Outcome {
            transport: m,
            result: Some(result),
            fired: Seq::empty(),
        },
    }
}

/// The outcome of a whole negotiation.
pub open spec fn start_outcome<R: Resources>(
    m: TransportModel<R>,
    remote_parameters: DTLSParameters,
    replies: Replies<R>,
) -> Outcome<R> {
    run(m, m.start(remote_parameters), replies)
}

/// The outcome of the start of the sessions alone.
pub open spec fn start_srtp_outcome<R: Resources>(
    m: TransportModel<R>,
    replies: Replies<R>,
) -> Outcome<R> {
    run(m, m.start_srtp(), replies)
}

/// What the handler of a transport is fired with when it goes through states: nothing if it has none.
pub open spec fn told<R: Resources>(
    m: TransportModel<R>,
    states: Seq<DTLSTransportState>,
) -> Seq<(Arc<R::Handler>, DTLSTransportState)> {
    match m.on_state_change_handler {
        Some(handler) => states.map_values(|state: DTLSTransportState| (handler, state)),
        None => Seq::empty(),
    }
}

/// Whether a negotiation gets past its checks: it has an endpoint, the ICE transport has started, and
/// the transport is new.
pub open spec fn begins<R: Resources>(m: TransportModel<R>, replies: Replies<R>) -> bool {
    &&& replies.dtls_endpoint is Some
    &&& replies.ice_state != ICETransportState::New
    &&& m.state == DTLSTransportState::New
}

/// A transport whose negotiation got past its checks.
pub open spec fn connecting<R: Resources>(
    m: TransportModel<R>,
    remote_parameters: DTLSParameters,
    replies: Replies<R>,
) -> TransportModel<R> {
    TransportModel {
        state: DTLSTransportState::Connecting,
        srtp_endpoint: replies.srtp_endpoint,
        srtcp_endpoint: replies.srtcp_endpoint,
        remote_parameters: remote_parameters@,
        ..m
    }
}

/// A transport whose handshake selected a profile and the certificate of the peer.
pub open spec fn connected<R: Resources>(
    m: TransportModel<R>,
    remote_parameters: DTLSParameters,
    replies: Replies<R>,
    profile: ProtectionProfile,
    handshake: Handshake<R>,
) -> TransportModel<R> {
    TransportModel {
        state: DTLSTransportState::Connected,
        srtp_protection_profile: profile,
        remote_certificate: handshake.peer_certificates@[0]@,
        conn: Some(Arc::new(handshake.conn)),
        ..connecting(m, remote_parameters, replies)
    }
}

/// The session that an endpoint leads to: none without an endpoint, else what opening it gave.
pub open spec fn opened<R: Resources>(
    endpoint: Option<Arc<R::Endpoint>>,
    reply: Result<R::Session, R::Failure>,
) -> Result<Option<Arc<R::Session>>, R::Failure> {
    match endpoint {
        None => Ok(None),
        Some(_) => match reply {
            Ok(session) => Ok(Some(Arc::new(session))),
            Err(failure) => Err(failure),
        },
    }
}

/// Once the SRTP session is settled, the SRTCP session is opened if there is an endpoint for it.
proof fn lemma_run_srtcp<R: Resources>(
    m: TransportModel<R>,
    plan: SrtpPlan,
    replies: Replies<R>,
)
    ensures
        ({
            let (next, action) = m.open_srtcp(plan);
            let outcome = run(next, action, replies);
            &&& outcome.fired == Seq::<(Arc<R::Handler>, DTLSTransportState)>::empty()
            &&& match opened::<R>(m.srtcp_endpoint, replies.srtcp_session) {
                Err(failure) => outcome.transport == m && outcome.ends_with(
                    ErrorModel::Outside(failure),
                ),
                Ok(srtcp) => outcome.transport == (TransportModel {
                    srtcp_session: srtcp,
                    srtp_ready_tx: None,
                    ..m
                }) && outcome.ends_well(),
            }
        }),
{
    let (next, action) = m.open_srtcp(plan);
    if m.srtcp_endpoint is Some {
        let (last, done) = m.after_session(SessionThen::Srtcp, replies.srtcp_session);
        assert(run(next, action, replies) == run(last, done, replies));
    }
}

/// Once there are keys, the SRTP session is opened if there is an endpoint for it.
proof fn lemma_run_srtp<R: Resources>(m: TransportModel<R>, plan: SrtpPlan, replies: Replies<R>)
    requires
        replies.keys is Ok,
    ensures
        ({
            let (next, action) = m.after_keys(KeysThen { plan }, replies.keys);
            let outcome = run(next, action, replies);
            match opened::<R>(m.srtp_endpoint, replies.srtp_session) {
                Err(failure) => outcome == (Outcome {
                    transport: m,
                    result: Some(Err(ErrorModel::Outside(failure))),
                    fired: Seq::empty(),
                }),
                Ok(srtp) => {
                    let (last, srtcp) = (TransportModel { srtp_session: srtp, ..m }).open_srtcp(
                        plan,
                    );
                    outcome == run(last, srtcp, replies)
                },
            }
        }),
{
    let (next, action) = m.after_keys(KeysThen { plan }, replies.keys);
    if m.srtp_endpoint is Some {
        let (last, srtcp) = m.after_session(SessionThen::Srtp { plan }, replies.srtp_session);
        assert(run(next, action, replies) == run(last, srtcp, replies));
    }
}

/// The start of the sessions fails without a connection, and if the keys or a session cannot be had;
/// what was opened before the failure is kept, and nothing else changes. When all went well, each
/// session is there exactly if there is an endpoint for it, and the readiness signal is given up. No
/// handler is fired.
pub proof fn law_start_srtp<R: Resources>(m: TransportModel<R>, replies: Replies<R>)
    ensures
        ({
            let outcome = start_srtp_outcome(m, replies);
            let srtp = opened::<R>(m.srtp_endpoint, replies.srtp_session);
            let srtcp = opened::<R>(m.srtcp_endpoint, replies.srtcp_session);
            &&& outcome.fired == Seq::<(Arc<R::Handler>, DTLSTransportState)>::empty()
            &&& m.conn is None ==> outcome.transport == m && outcome.ends_with(
                ErrorModel::ErrDtlsTransportNotStarted,
            )
            &&& m.conn is Some ==> match (replies.keys, srtp, srtcp) {
                (Err(failure), _, _) => outcome.transport == m && outcome.ends_with(
                    ErrorModel::Outside(failure),
                ),
                (Ok(_), Err(failure), _) => outcome.transport == m && outcome.ends_with(
                    ErrorModel::Outside(failure),
                ),
                (Ok(_), Ok(srtp), Err(failure)) => outcome.transport == (TransportModel {
                    srtp_session: srtp,
                    ..m
                }) && outcome.ends_with(ErrorModel::Outside(failure)),
                (Ok(_), Ok(srtp), Ok(srtcp)) => outcome.transport == (TransportModel {
                    srtp_session: srtp,
                    srtcp_session: srtcp,
                    srtp_ready_tx: None,
                    ..m
                }) && outcome.ends_well(),
            }
        }),
{
    if let Some(conn) = m.conn {
        let plan = m.srtp_plan();
        let role = m.start_srtp();
        let keys = m.after_ice_role(
            IceRoleThen::Srtp { conn, plan },
            replies.srtp_ice_role,
            replies.certificate,
        );
        assert(run(m, role, replies) == run(m, keys, replies));
        let (keyed, srtp) = m.after_keys(KeysThen { plan }, replies.keys);
        assert(run(m, keys, replies) == run(keyed, srtp, replies));
        if replies.keys is Ok {
            lemma_run_srtp(m, plan, replies);
            if let Ok(session) = opened::<R>(m.srtp_endpoint, replies.srtp_session) {
                lemma_run_srtcp(TransportModel { srtp_session: session, ..m }, plan, replies);
            }
        }
    }
}

/// A negotiation that has an endpoint for its handshake comes to the check of the ICE transport.
proof fn lemma_run_to_check<R: Resources>(
    m: TransportModel<R>,
    remote_parameters: DTLSParameters,
    replies: Replies<R>,
)
    requires
        replies.dtls_endpoint is Some,
    ensures
        start_outcome(m, remote_parameters, replies) == run(
            m,
            m.after_ice_state(
                IceStateThen { endpoint: replies.dtls_endpoint->0, remote_parameters },
                replies.ice_state,
            ),
            replies,
        ),
{
    let then = IceStateThen { endpoint: replies.dtls_endpoint->0, remote_parameters };
    assert(start_outcome(m, remote_parameters, replies) == run(
        m,
        ActionModel::ReadIceState { then },
        replies,
    ));
}

/// Firing the handler comes first, where there is one, and what follows is the same either way.
proof fn lemma_run_change_state<R: Resources>(
    m: TransportModel<R>,
    state: DTLSTransportState,
    then: NotifyThenModel<R>,
    replies: Replies<R>,
)
    ensures
        ({
            let (next, action) = m.change_state(state, then);
            let outcome = run(next, action, replies);
            let (last, follows) = (TransportModel { state, ..m }).after_notified(then);
            let rest = run(last, follows, replies);
            &&& outcome.transport == rest.transport
            &&& outcome.result == rest.result
            &&& outcome.fired =~= told(m, seq![state]) + rest.fired
        }),
{
}

/// A negotiation that is refused, because the ICE transport has not started or the transport is not
/// new, leaves no trace: the transport is as it was, and no handler is fired.
pub proof fn law_refused_start_changes_nothing<R: Resources>(
    m: TransportModel<R>,
    remote_parameters: DTLSParameters,
    replies: Replies<R>,
)
    requires
        replies.dtls_endpoint is Some,
        !begins(m, replies),
    ensures
        ({
            let outcome = start_outcome(m, remote_parameters, replies);
            &&& outcome.transport == m
            &&& outcome.fired.len() == 0
            &&& if replies.ice_state == ICETransportState::New {
                outcome.ends_with(ErrorModel::ErrICEConnectionNotStarted)
            } else {
                outcome.ends_with(ErrorModel::ErrInvalidDTLSStart)
            }
        }),
{
    lemma_run_to_check(m, remote_parameters, replies);
}

/// A negotiation without an endpoint for the handshake fails, and the transport is in the state
/// `Failed` and otherwise as it was.
pub proof fn law_start_without_endpoint_fails<R: Resources>(
    m: TransportModel<R>,
    remote_parameters: DTLSParameters,
    replies: Replies<R>,
)
    requires
        replies.dtls_endpoint is None,
    ensures
        ({
            let outcome = start_outcome(m, remote_parameters, replies);
            &&& outcome.transport == (TransportModel { state: DTLSTransportState::Failed, ..m })
            &&& outcome.ends_with(ErrorModel::Message(no_endpoint_text()))
            &&& outcome.fired =~= told(m, seq![DTLSTransportState::Failed])
        }),
{
    let error = ErrorModel::Message(no_endpoint_text());
    lemma_run_fail(m, error, replies);
    let (next, action) = m.fail(error);
    assert(start_outcome(m, remote_parameters, replies) == run(next, action, replies));
}

/// A negotiation that gets past its checks comes to its handshake in the state `Connecting`, of which
/// the handler is told first.
proof fn lemma_run_to_handshake<R: Resources>(
    m: TransportModel<R>,
    remote_parameters: DTLSParameters,
    replies: Replies<R>,
)
    requires
        begins(m, replies),
    ensures
        ({
            let outcome = start_outcome(m, remote_parameters, replies);
            let (next, action) = connecting(m, remote_parameters, replies).after_handshake(
                replies.handshake,
            );
            let rest = run(next, action, replies);
            &&& outcome.transport == rest.transport
            &&& outcome.result == rest.result
            &&& outcome.fired =~= told(m, seq![DTLSTransportState::Connecting]) + rest.fired
        }),
{
    lemma_run_to_check(m, remote_parameters, replies);
    let endpoint = replies.dtls_endpoint->0;
    let srtp = EndpointThen::Srtp { endpoint, remote_parameters };
    let (with_srtp, action) = m.after_endpoint(srtp, replies.srtp_endpoint);
    assert(start_outcome(m, remote_parameters, replies) == run(with_srtp, action, replies));
    let srtcp = EndpointThen::Srtcp { endpoint, remote_parameters };
    let (next, change) = with_srtp.after_endpoint(srtcp, replies.srtcp_endpoint);
    assert(run(with_srtp, action, replies) == run(next, change, replies));
    let with_both = TransportModel {
        srtcp_endpoint: replies.srtcp_endpoint,
        remote_parameters: remote_parameters@,
        ..with_srtp
    };
    lemma_run_change_state(
        with_both,
        DTLSTransportState::Connecting,
        NotifyThenModel::Handshake { endpoint },
        replies,
    );
    let connecting = connecting(m, remote_parameters, replies);
    let role = IceRoleThen::Handshake { endpoint };
    let handshake = connecting.after_ice_role(
        role,
        replies.handshake_ice_role,
        replies.certificate,
    );
    assert(run(connecting, ActionModel::ReadIceRole { then: role }, replies) == run(
        connecting,
        handshake,
        replies,
    ));
    let (last, follows) = connecting.after_handshake(replies.handshake);
    assert(run(connecting, handshake, replies) == run(last, follows, replies));
}

/// A negotiation that fails ends there.
proof fn lemma_run_fail<R: Resources>(
    m: TransportModel<R>,
    error: ErrorModel<R::Failure>,
    replies: Replies<R>,
)
    ensures
        ({
            let (next, action) = m.fail(error);
            let outcome = run(next, action, replies);
            &&& outcome.transport == (TransportModel { state: DTLSTransportState::Failed, ..m })
            &&& outcome.ends_with(error)
            &&& outcome.fired =~= told(m, seq![DTLSTransportState::Failed])
        }),
{
    lemma_run_change_state(
        m,
        DTLSTransportState::Failed,
        NotifyThenModel::Finish { result: Err(error) },
        replies,
    );
}

/// Without a handshake, or with one that selected no profile for the sessions or, where fingerprints
/// are to be verified, one in which the peer sent no certificate, the transport goes through
/// `Connecting` to `Failed`, and has no connection that it did not have before.
pub proof fn law_start_with_bad_handshake_fails<R: Resources>(
    m: TransportModel<R>,
    remote_parameters: DTLSParameters,
    replies: Replies<R>,
)
    requires
        begins(m, replies),
    ensures
        ({
            let outcome = start_outcome(m, remote_parameters, replies);
            let error = match replies.handshake {
                Err(failure) => Some(ErrorModel::Outside(failure)),
                Ok(handshake) => if session_profile(handshake.srtp_protection_profile) is None {
                    Some(ErrorModel::ErrNoSRTPProtectionProfile)
                } else if !m.setting_engine.disable_certificate_fingerprint_verification
                    && handshake.peer_certificates@.len() == 0 {
                    Some(ErrorModel::ErrNoRemoteCertificate)
                } else {
                    None
                },
            };
            let profile = match replies.handshake {
                Err(_) => m.srtp_protection_profile,
                Ok(handshake) => match session_profile(handshake.srtp_protection_profile) {
                    Some(profile) => profile,
                    None => m.srtp_protection_profile,
                },
            };
            error is Some ==> {
                &&& outcome.ends_with(error->0)
                &&& outcome.transport == (TransportModel {
                    state: DTLSTransportState::Failed,
                    srtp_protection_profile: profile,
                    ..connecting(m, remote_parameters, replies)
                })
                &&& outcome.fired =~= told(
                    m,
                    seq![DTLSTransportState::Connecting, DTLSTransportState::Failed],
                )
            }
        }),
{
    lemma_run_to_handshake(m, remote_parameters, replies);
    let connecting = connecting(m, remote_parameters, replies);
    match replies.handshake {
        Err(failure) => {
            lemma_run_fail(connecting, ErrorModel::Outside(failure), replies);
        },
        Ok(handshake) => match session_profile(handshake.srtp_protection_profile) {
            None => {
                lemma_run_fail(connecting, ErrorModel::ErrNoSRTPProtectionProfile, replies);
            },
            Some(profile) => {
                lemma_run_fail(
                    TransportModel { srtp_protection_profile: profile, ..connecting },
                    ErrorModel::ErrNoRemoteCertificate,
                    replies,
                );
            },
        },
    }
    assert(told(m, seq![DTLSTransportState::Connecting]) + told(m, seq![DTLSTransportState::Failed])
        =~= told(m, seq![DTLSTransportState::Connecting, DTLSTransportState::Failed]));
}

/// Where fingerprints are not to be verified, a handshake that selected a profile ends the
/// negotiation well, and the transport stays in the state `Connecting`, without a connection.
pub proof fn law_start_without_verification_stays_connecting<R: Resources>(
    m: TransportModel<R>,
    remote_parameters: DTLSParameters,
    replies: Replies<R>,
    profile: ProtectionProfile,
    handshake: Handshake<R>,
)
    requires
        begins(m, replies),
        replies.handshake == Ok::<Handshake<R>, R::Failure>(handshake),
        session_profile(handshake.srtp_protection_profile) == Some(profile),
        m.setting_engine.disable_certificate_fingerprint_verification,
    ensures
        ({
            let outcome = start_outcome(m, remote_parameters, replies);
            &&& outcome.ends_well()
            &&& outcome.transport == (TransportModel {
                srtp_protection_profile: profile,
                ..connecting(m, remote_parameters, replies)
            })
            &&& m.wf() ==> outcome.transport.conn is None
            &&& outcome.fired =~= told(m, seq![DTLSTransportState::Connecting])
        }),
{
    lemma_run_to_handshake(m, remote_parameters, replies);
}

/// A good handshake takes the transport through `Connecting` to `Connected`, with the connection and
/// the first certificate of the peer, and the rest is the start of the sessions: it gives the result,
/// and no failure of it changes the state.
pub proof fn law_start_connects<R: Resources>(
    m: TransportModel<R>,
    remote_parameters: DTLSParameters,
    replies: Replies<R>,
    profile: ProtectionProfile,
    handshake: Handshake<R>,
)
    requires
        begins(m, replies),
        replies.handshake == Ok::<Handshake<R>, R::Failure>(handshake),
        session_profile(handshake.srtp_protection_profile) == Some(profile),
        !m.setting_engine.disable_certificate_fingerprint_verification,
        handshake.peer_certificates@.len() > 0,
    ensures
        ({
            let outcome = start_outcome(m, remote_parameters, replies);
            let connected = connected(m, remote_parameters, replies, profile, handshake);
            let sessions = start_srtp_outcome(connected, replies);
            &&& outcome.result == sessions.result
            &&& outcome.transport == sessions.transport
            &&& outcome.transport.state == DTLSTransportState::Connected
            &&& outcome.transport.conn == Some(Arc::new(handshake.conn))
            &&& outcome.transport.remote_certificate == handshake.peer_certificates@[0]@
            &&& outcome.fired =~= told(
                m,
                seq![DTLSTransportState::Connecting, DTLSTransportState::Connected],
            )
        }),
{
    lemma_run_to_handshake(m, remote_parameters, replies);
    let connected = connected(m, remote_parameters, replies, profile, handshake);
    law_start_srtp(connected, replies);
    lemma_run_change_state(
        TransportModel { state: DTLSTransportState::Connecting, ..connected },
        DTLSTransportState::Connected,
        NotifyThenModel::StartSrtp,
        replies,
    );
    assert(told(m, seq![DTLSTransportState::Connecting]) + told(
        m,
        seq![DTLSTransportState::Connected],
    ) =~= told(m, seq![DTLSTransportState::Connecting, DTLSTransportState::Connected]));
}

/// A negotiation ends well exactly if it gets past its checks, the handshake selects a profile for
/// the sessions, and either fingerprints are not to be verified, or the peer sent a certificate, the
/// keys could be had, and so could the session for each endpoint that there is.
pub proof fn law_start_succeeds_exactly<R: Resources>(
    m: TransportModel<R>,
    remote_parameters: DTLSParameters,
    replies: Replies<R>,
)
    ensures
        start_outcome(m, remote_parameters, replies).result is Some,
        start_outcome(m, remote_parameters, replies).result->0 is Ok <==> {
            &&& begins(m, replies)
            &&& replies.handshake matches Ok(handshake)
            &&& session_profile(handshake.srtp_protection_profile) is Some
            &&& m.setting_engine.disable_certificate_fingerprint_verification || {
                &&& handshake.peer_certificates@.len() > 0
                &&& replies.keys is Ok
                &&& opened::<R>(replies.srtp_endpoint, replies.srtp_session) is Ok
                &&& opened::<R>(replies.srtcp_endpoint, replies.srtcp_session) is Ok
            }
        },
{
    if replies.dtls_endpoint is None {
        law_start_without_endpoint_fails(m, remote_parameters, replies);
    } else if !begins(m, replies) {
        law_refused_start_changes_nothing(m, remote_parameters, replies);
    } else {
        law_start_with_bad_handshake_fails(m, remote_parameters, replies);
        if let Ok(handshake) = replies.handshake {
            if let Some(profile) = session_profile(handshake.srtp_protection_profile) {
                if m.setting_engine.disable_certificate_fingerprint_verification {
                    law_start_without_verification_stays_connecting(
                        m,
                        remote_parameters,
                        replies,
                        profile,
                        handshake,
                    );
                } else if handshake.peer_certificates@.len() > 0 {
                    law_start_connects(m, remote_parameters, replies, profile, handshake);
                    law_start_srtp(
                        connected(m, remote_parameters, replies, profile, handshake),
                        replies,
                    );
                }
            }
        }
    }
}

/// The role with which the keys are exported is the one that the handshake took, as long as the ICE
/// transport keeps its role: no reply to the handshake changes what the role follows from.
pub proof fn law_keys_are_exported_in_the_role_of_the_handshake<R: Resources>(
    m: TransportModel<R>,
    reply: Result<Handshake<R>, R::Failure>,
    ice_role: ICERole,
)
    ensures
        m.after_handshake(reply).0.role(ice_role) == m.role(ice_role),
{
}

/// A transport can be negotiated once: after a negotiation that got past its checks, or that had no
/// endpoint, any other that has an endpoint, over an ICE transport that has started, is refused.
pub proof fn law_start_is_once<R: Resources>(
    m: TransportModel<R>,
    remote_parameters: DTLSParameters,
    replies: Replies<R>,
    again_parameters: DTLSParameters,
    again: Replies<R>,
)
    requires
        begins(m, replies) || replies.dtls_endpoint is None,
        again.dtls_endpoint is Some,
        again.ice_state != ICETransportState::New,
    ensures
        ({
            let first = start_outcome(m, remote_parameters, replies).transport;
            let second = start_outcome(first, again_parameters, again);
            &&& second.ends_with(ErrorModel::ErrInvalidDTLSStart)
            &&& second.transport == first
        }),
{
    let first = start_outcome(m, remote_parameters, replies).transport;
    if replies.dtls_endpoint is None {
        law_start_without_endpoint_fails(m, remote_parameters, replies);
    } else {
        law_start_with_bad_handshake_fails(m, remote_parameters, replies);
        if let Ok(handshake) = replies.handshake {
            if let Some(profile) = session_profile(handshake.srtp_protection_profile) {
                if m.setting_engine.disable_certificate_fingerprint_verification {
                    law_start_without_verification_stays_connecting(
                        m,
                        remote_parameters,
                        replies,
                        profile,
                        handshake,
                    );
                } else if handshake.peer_certificates@.len() > 0 {
                    law_start_connects(m, remote_parameters, replies, profile, handshake);
                }
            }
        }
    }
    law_refused_start_changes_nothing(first, again_parameters, again);
}

} // verus!
