//! With what the SRTP sessions are opened.
use crate::action::{Action, Handshake, IceRoleThen, KeysThen, SessionThen};
use crate::config::{replay_choice, ReplayOption, SessionKeys, SrtpPlan};
use crate::dtls_role::DTLSRole;
use crate::error::Error;
use crate::ice::ICERole;
use crate::model::TransportModel;
use crate::protection_profile::{session_profile, ProtectionProfile, SrtpProtectionProfile};
use crate::resources::Resources;
use std::sync::Arc;
use vstd::prelude::*;

verus! {

/// AES-GCM with 128 bits and AES-CM with the long tag are the profiles that sessions are run with,
/// each under its own name. No other profile is.
pub proof fn law_session_profiles(selected: SrtpProtectionProfile)
    ensures
        session_profile(selected) == Some(ProtectionProfile::AeadAes128Gcm) <==> selected
            == SrtpProtectionProfile::Srtp_Aead_Aes_128_Gcm,
        session_profile(selected) == Some(ProtectionProfile::Aes128CmHmacSha1_80) <==> selected
            == SrtpProtectionProfile::Srtp_Aes128_Cm_Hmac_Sha1_80,
{
}

/// A window that is set is used at its size, whatever the switch says. The switch turns protection
/// off exactly where no window is set. Without either the default stays.
pub proof fn law_replay_choice(window: usize, disabled: bool)
    ensures
        window != 0 ==> replay_choice(window, disabled) == Some(ReplayOption::Window(window)),
        replay_choice(window, disabled) == Some(ReplayOption::Disabled) <==> window == 0
            && disabled,
        replay_choice(window, disabled) is None <==> window == 0 && !disabled,
{
}

/// The start of the sessions goes on with the connection of the transport and its profile, and with
/// the replay protection of the settings: those for SRTP bear on received RTP packets, those for
/// SRTCP on received RTCP packets. It is refused exactly if there is no connection.
pub proof fn law_sessions_follow_the_settings<R: Resources>(m: TransportModel<R>, action: Action<R>)
    requires
        action@ == m.start_srtp(),
    ensures
        m.conn is None ==> {
            &&& action is Done
            &&& action->Done_result is Err
            &&& action->Done_result->Err_0 is ErrDtlsTransportNotStarted
        },
        m.conn is Some ==> {
            let srtp = m.setting_engine.replay_protection.srtp;
            let srtcp = m.setting_engine.replay_protection.srtcp;
            &&& action matches Action::ReadIceRole { then: IceRoleThen::Srtp { conn, plan } }
            &&& m.conn == Some(conn)
            &&& plan.profile == m.srtp_protection_profile
            &&& srtp != 0 ==> plan.rtp == Some(ReplayOption::Window(srtp))
            &&& srtp == 0 && m.setting_engine.disable_srtp_replay_protection ==> plan.rtp == Some(
                ReplayOption::Disabled,
            )
            &&& srtp == 0 && !m.setting_engine.disable_srtp_replay_protection ==> plan.rtp is None
            &&& srtcp != 0 ==> plan.rtcp == Some(ReplayOption::Window(srtcp))
            &&& srtcp == 0 && m.setting_engine.disable_srtcp_replay_protection ==> plan.rtcp
                == Some(ReplayOption::Disabled)
            &&& srtcp == 0 && !m.setting_engine.disable_srtcp_replay_protection
                ==> plan.rtcp is None
        },
{
}

/// The keys are exported out of the connection for the planned profile, as the client exactly if the
/// remote peer is the server, or is not the client and leaves it to the settings, which say client,
/// or leave it to ICE, where this peer is not the controlling one.
pub proof fn law_key_export_side<R: Resources>(
    m: TransportModel<R>,
    conn: Arc<R::Conn>,
    plan: SrtpPlan,
    ice_role: ICERole,
    certificate: R::Certificate,
    action: Action<R>,
)
    requires
        action@ == m.after_ice_role(IceRoleThen::Srtp { conn, plan }, ice_role, certificate),
    ensures
        action is ExtractKeys,
        action->ExtractKeys_conn == conn,
        action->ExtractKeys_profile == plan.profile,
        action->ExtractKeys_then.plan == plan,
        action->ExtractKeys_is_client <==> {
            ||| m.remote_parameters.role == DTLSRole::Server
            ||| m.remote_parameters.role != DTLSRole::Client && (
            m.setting_engine.answering_dtls_role == DTLSRole::Client || (
            m.setting_engine.answering_dtls_role != DTLSRole::Server && ice_role
                != ICERole::Controlling))
        },
        m.remote_parameters.role == DTLSRole::Client ==> !action->ExtractKeys_is_client,
        m.remote_parameters.role == DTLSRole::Server ==> action->ExtractKeys_is_client,
        m.remote_parameters.role == DTLSRole::Auto && m.setting_engine.answering_dtls_role
            == DTLSRole::Auto ==> {
            &&& ice_role == ICERole::Controlling ==> !action->ExtractKeys_is_client
            &&& ice_role == ICERole::Controlled ==> action->ExtractKeys_is_client
        },
{
}

/// The keys are exported from the side on which the transport shook hands: asked for a handshake
/// before its outcome came, and for the keys after it, with the same ICE role, it names the same
/// side.
pub proof fn law_keys_are_exported_from_the_side_of_the_handshake<R: Resources>(
    m: TransportModel<R>,
    endpoint: Arc<R::Endpoint>,
    reply: Result<Handshake<R>, R::Failure>,
    conn: Arc<R::Conn>,
    plan: SrtpPlan,
    ice_role: ICERole,
    certificate: R::Certificate,
    handshake: Action<R>,
    export: Action<R>,
)
    requires
        handshake@ == m.after_ice_role(
            IceRoleThen::Handshake { endpoint },
            ice_role,
            certificate,
        ),
        export@ == m.after_handshake(reply).0.after_ice_role(
            IceRoleThen::Srtp { conn, plan },
            ice_role,
            certificate,
        ),
    ensures
        handshake is Handshake,
        export is ExtractKeys,
        handshake->Handshake_is_client == export->ExtractKeys_is_client,
{
}

/// The session for RTP is opened over its endpoint with the very keys that were exported, each in its
/// place, and with the planned profile and replay protection.
pub proof fn law_srtp_session_has_the_exported_keys<R: Resources>(
    m: TransportModel<R>,
    then: KeysThen,
    keys: SessionKeys,
    action: Action<R>,
)
    requires
        m.srtp_endpoint is Some,
        action@ == m.after_keys(then, Ok(keys@)).1,
    ensures
        m.after_keys(then, Ok(keys@)).0 == m,
        action is NewSession,
        action->NewSession_is_rtp,
        m.srtp_endpoint == Some(action->NewSession_endpoint),
        action->NewSession_config.keys.local_master_key@ == keys.local_master_key@,
        action->NewSession_config.keys.local_master_salt@ == keys.local_master_salt@,
        action->NewSession_config.keys.remote_master_key@ == keys.remote_master_key@,
        action->NewSession_config.keys.remote_master_salt@ == keys.remote_master_salt@,
        action->NewSession_config.profile == then.plan.profile,
        action->NewSession_config.remote_rtp_options == then.plan.rtp,
        action->NewSession_config.remote_rtcp_options is None,
        action->NewSession_then == (SessionThen::Srtp { plan: then.plan }),
{
    assert(action@->NewSession_config.keys == keys@);
}

/// Two exports that differ in any key or salt lead to sessions that differ in it.
pub proof fn law_srtp_session_tells_keys_apart<R: Resources>(
    m: TransportModel<R>,
    then: KeysThen,
    keys: (SessionKeys, SessionKeys),
    actions: (Action<R>, Action<R>),
)
    requires
        m.srtp_endpoint is Some,
        actions.0@ == m.after_keys(then, Ok(keys.0@)).1,
        actions.1@ == m.after_keys(then, Ok(keys.1@)).1,
        actions.0@ == actions.1@,
    ensures
        keys.0.local_master_key@ == keys.1.local_master_key@,
        keys.0.local_master_salt@ == keys.1.local_master_salt@,
        keys.0.remote_master_key@ == keys.1.remote_master_key@,
        keys.0.remote_master_salt@ == keys.1.remote_master_salt@,
{
    law_srtp_session_has_the_exported_keys(m, then, keys.0, actions.0);
    law_srtp_session_has_the_exported_keys(m, then, keys.1, actions.1);
    assert(actions.0@->NewSession_config == actions.1@->NewSession_config);
}

/// The session for RTCP is opened over its endpoint without keys, with the planned profile and replay
/// protection, once the session for RTP is open.
pub proof fn law_srtcp_session_follows_the_plan<R: Resources>(
    m: TransportModel<R>,
    plan: SrtpPlan,
    session: R::Session,
    action: Action<R>,
)
    requires
        m.srtcp_endpoint is Some,
        action@ == m.after_session(SessionThen::Srtp { plan }, Ok(session)).1,
    ensures
        m.after_session(SessionThen::Srtp { plan }, Ok(session)).0 == (TransportModel {
            srtp_session: Some(Arc::new(session)),
            ..m
        }),
        action is NewSession,
        !action->NewSession_is_rtp,
        m.srtcp_endpoint == Some(action->NewSession_endpoint),
        action->NewSession_config.keys.local_master_key@.len() == 0,
        action->NewSession_config.keys.local_master_salt@.len() == 0,
        action->NewSession_config.keys.remote_master_key@.len() == 0,
        action->NewSession_config.keys.remote_master_salt@.len() == 0,
        action->NewSession_config.profile == plan.profile,
        action->NewSession_config.remote_rtp_options is None,
        action->NewSession_config.remote_rtcp_options == plan.rtcp,
        action->NewSession_then is Srtcp,
{
    let keys = action@->NewSession_config.keys;
    assert(keys == action->NewSession_config.keys@);
}

/// A failure to export the keys or to open a session ends the operation with that very failure, and
/// leaves the transport as it is.
pub proof fn law_session_failures_are_passed_on<R: Resources>(
    m: TransportModel<R>,
    keys_then: KeysThen,
    session_then: SessionThen,
    failure: R::Failure,
    actions: (Action<R>, Action<R>),
)
    requires
        actions.0@ == m.after_keys(keys_then, Err(failure)).1,
        actions.1@ == m.after_session(session_then, Err(failure)).1,
    ensures
        m.after_keys(keys_then, Err(failure)).0 == m,
        m.after_session(session_then, Err(failure)).0 == m,
        actions.0 matches Action::Done { result: Err(error) } && error == Error::Outside(failure),
        actions.1 matches Action::Done { result: Err(error) } && error == Error::Outside(failure),
{
}

/// The last session is kept, the readiness signal is given up and the operation ends well; so it does
/// where there is no endpoint for a session, which then there is none of.
pub proof fn law_sessions_end_well<R: Resources>(
    m: TransportModel<R>,
    plan: SrtpPlan,
    keys: SessionKeys,
    session: R::Session,
    actions: (Action<R>, Action<R>, Action<R>),
)
    requires
        actions.0@ == m.after_session(SessionThen::Srtcp, Ok(session)).1,
        actions.1@ == m.after_session(SessionThen::Srtp { plan }, Ok(session)).1,
        actions.2@ == m.after_keys(KeysThen { plan }, Ok(keys@)).1,
    ensures
        m.after_session(SessionThen::Srtcp, Ok(session)).0 == (TransportModel {
            srtcp_session: Some(Arc::new(session)),
            srtp_ready_tx: None,
            ..m
        }),
        actions.0 is Done && actions.0->Done_result is Ok,
        m.srtcp_endpoint is None ==> {
            &&& m.after_session(SessionThen::Srtp { plan }, Ok(session)).0 == (TransportModel {
                srtp_session: Some(Arc::new(session)),
                srtcp_session: None,
                srtp_ready_tx: None,
                ..m
            })
            &&& actions.1 is Done && actions.1->Done_result is Ok
        },
        m.srtp_endpoint is None && m.srtcp_endpoint is None ==> {
            &&& m.after_keys(KeysThen { plan }, Ok(keys@)).0 == (TransportModel {
                srtp_session: None,
                srtcp_session: None,
                srtp_ready_tx: None,
                ..m
            })
            &&& actions.2 is Done && actions.2->Done_result is Ok
        },
        m.srtp_endpoint is None && m.srtcp_endpoint is Some ==> {
            &&& m.after_keys(KeysThen { plan }, Ok(keys@)).0 == (TransportModel {
                srtp_session: None,
                ..m
            })
            &&& actions.2 is NewSession
            &&& !actions.2->NewSession_is_rtp
            &&& m.srtcp_endpoint == Some(actions.2->NewSession_endpoint)
            &&& actions.2->NewSession_config.remote_rtcp_options == plan.rtcp
            &&& actions.2->NewSession_config.remote_rtp_options is None
            &&& actions.2->NewSession_config.profile == plan.profile
        },
{
}

} // verus!
