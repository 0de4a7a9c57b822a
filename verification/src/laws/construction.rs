//! What a transport is when it is made.
use crate::dtls_parameters::DTLSParametersModel;
use crate::dtls_role::DTLSRole;
use crate::dtls_transport_state::DTLSTransportState;
use crate::ice::ICERole;
use crate::model::TransportModel;
use crate::protection_profile::ProtectionProfile;
use crate::resources::Resources;
use crate::setting_engine::SettingEngine;
use vstd::prelude::*;

verus! {

/// Settings that nobody touched switch nothing off, set no window and no profile, and leave the role
/// open.
pub proof fn law_initial_settings(settings: SettingEngine)
    ensures
        settings.is_initial() <==> {
            &&& settings.replay_protection.dtls == 0
            &&& settings.replay_protection.srtp == 0
            &&& settings.replay_protection.srtcp == 0
            &&& !settings.disable_srtp_replay_protection
            &&& !settings.disable_srtcp_replay_protection
            &&& settings.srtp_protection_profiles@.len() == 0
            &&& settings.answering_dtls_role == DTLSRole::Auto
            &&& !settings.disable_certificate_fingerprint_verification
        },
{
}

/// A transport that nothing was done with holds nothing of a peer: no role and no fingerprint, no
/// certificate, no connection, no endpoint, no session and no stream; and it has no handler. Its
/// settings are those that it was given, and its role is theirs, or else follows from ICE.
pub proof fn law_unused_transport_holds_nothing<R: Resources>(settings: SettingEngine)
    ensures
        ({
            let m = TransportModel::<R>::unconfigured(settings);
            &&& m.setting_engine == settings
            &&& m.state == DTLSTransportState::Unspecified
            &&& m.remote_parameters.role == DTLSRole::Auto
            &&& m.remote_parameters.fingerprints.len() == 0
            &&& m.remote_certificate.len() == 0
            &&& m.srtp_protection_profile == ProtectionProfile::Aes128CmHmacSha1_80
            &&& m.conn is None && m.srtp_session is None && m.srtcp_session is None
            &&& m.srtp_endpoint is None && m.srtcp_endpoint is None
            &&& m.simulcast_streams.len() == 0
            &&& m.on_state_change_handler is None
            &&& m.ice_transport is None && m.certificates.len() == 0
            &&& m.srtp_ready_tx is None && m.srtp_ready_rx is None && m.dtls_matcher is None
            &&& settings.answering_dtls_role == DTLSRole::Auto ==> {
                &&& m.role(ICERole::Controlling) == DTLSRole::Server
                &&& m.role(ICERole::Controlled) == DTLSRole::Client
            }
        }),
{
}

/// Parameters that nobody filled in have no explicit role and no fingerprint.
pub proof fn law_initial_parameters()
    ensures
        DTLSParametersModel::initial().role == DTLSRole::Auto,
        DTLSParametersModel::initial().fingerprints.len() == 0,
{
}

} // verus!
