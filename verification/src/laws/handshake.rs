//! From which side, and how, a transport shakes hands, and what it makes of the outcome.
use crate::action::{Action, Handshake, IceRoleThen, NotifyThen};
use crate::config::{ClientAuthType, DTLSConfig, DTLSConfigModel};
use crate::dtls_role::DTLSRole;
use crate::dtls_transport_state::DTLSTransportState;
use crate::error::Error;
use crate::ice::ICERole;
use crate::model::TransportModel;
use crate::protection_profile::{ProtectionProfile, SrtpProtectionProfile};
use crate::resources::Resources;
use crate::setting_engine::SettingEngine;
use std::sync::Arc;
use vstd::prelude::*;

verus! {

/// With the ICE role the transport asks for a handshake over its endpoint, as the client exactly if
/// the remote peer is the server, or is not the client and leaves it to the settings, which say
/// client, or leave it to ICE, where this peer is not the controlling one.
pub proof fn law_handshake_side<R: Resources>(
    m: TransportModel<R>,
    endpoint: Arc<R::Endpoint>,
    ice_role: ICERole,
    certificate: R::Certificate,
    action: Action<R>,
)
    requires
        action@ == m.after_ice_role(IceRoleThen::Handshake { endpoint }, ice_role, certificate),
    ensures
        action is Handshake,
        action->Handshake_endpoint == endpoint,
        action->Handshake_is_client <==> {
            ||| m.remote_parameters.role == DTLSRole::Server
            ||| m.remote_parameters.role != DTLSRole::Client && (
            m.setting_engine.answering_dtls_role == DTLSRole::Client || (
            m.setting_engine.answering_dtls_role != DTLSRole::Server && ice_role
                != ICERole::Controlling))
        },
        // A remote peer that has taken a side leaves the other one, whatever ICE says.
        m.remote_parameters.role == DTLSRole::Client ==> !action->Handshake_is_client,
        m.remote_parameters.role == DTLSRole::Server ==> action->Handshake_is_client,
        // Where nobody has, the offerer serves.
        m.remote_parameters.role == DTLSRole::Auto && m.setting_engine.answering_dtls_role
            == DTLSRole::Auto ==> {
            &&& ice_role == ICERole::Controlling ==> !action->Handshake_is_client
            &&& ice_role == ICERole::Controlled ==> action->Handshake_is_client
        },
{
}

/// Two peers, neither of which was given a role, shake hands from opposite sides when one of them
/// controls ICE and the other one is controlled.
pub proof fn law_two_peers_take_opposite_sides<R: Resources>(
    offerer: TransportModel<R>,
    answerer: TransportModel<R>,
    endpoints: (Arc<R::Endpoint>, Arc<R::Endpoint>),
    certificates: (R::Certificate, R::Certificate),
    actions: (Action<R>, Action<R>),
)
    requires
        offerer.remote_parameters.role == DTLSRole::Auto,
        answerer.remote_parameters.role == DTLSRole::Auto,
        offerer.setting_engine.answering_dtls_role == DTLSRole::Auto,
        answerer.setting_engine.answering_dtls_role == DTLSRole::Auto,
        actions.0@ == offerer.after_ice_role(
            IceRoleThen::Handshake { endpoint: endpoints.0 },
            ICERole::Controlling,
            certificates.0,
        ),
        actions.1@ == answerer.after_ice_role(
            IceRoleThen::Handshake { endpoint: endpoints.1 },
            ICERole::Controlled,
            certificates.1,
        ),
    ensures
        actions.0->Handshake_is_client != actions.1->Handshake_is_client,
{
}

/// A peer that was told which side the other one takes shakes hands from the opposite side, whatever
/// its own settings and ICE role are.
pub proof fn law_told_peer_takes_the_opposite_side<R: Resources>(
    first: TransportModel<R>,
    told: TransportModel<R>,
    endpoints: (Arc<R::Endpoint>, Arc<R::Endpoint>),
    ice_roles: (ICERole, ICERole),
    certificates: (R::Certificate, R::Certificate),
    actions: (Action<R>, Action<R>),
)
    requires
        actions.0@ == first.after_ice_role(
            IceRoleThen::Handshake { endpoint: endpoints.0 },
            ice_roles.0,
            certificates.0,
        ),
        actions.1@ == told.after_ice_role(
            IceRoleThen::Handshake { endpoint: endpoints.1 },
            ice_roles.1,
            certificates.1,
        ),
        told.remote_parameters.role == if actions.0->Handshake_is_client {
            DTLSRole::Client
        } else {
            DTLSRole::Server
        },
    ensures
        actions.0->Handshake_is_client != actions.1->Handshake_is_client,
{
}

/// A configuration for the handshake presents the one certificate, demands one of the peer, and
/// offers exactly the profiles of the settings, in their order; only where the settings name none
/// does it offer AES-GCM and then AES-CM.
pub proof fn law_handshake_configuration<R: Resources>(
    settings: SettingEngine,
    certificate: R::Certificate,
    window: usize,
    config: DTLSConfig<R>,
)
    requires
        config@ == DTLSConfigModel::<R>::of(settings, certificate, window),
    ensures
        settings.srtp_protection_profiles@.len() != 0 ==> config.srtp_protection_profiles@
            == settings.srtp_protection_profiles@,
        settings.srtp_protection_profiles@.len() == 0 ==> {
            &&& config.srtp_protection_profiles@.len() == 2
            &&& config.srtp_protection_profiles@[0] == SrtpProtectionProfile::Srtp_Aead_Aes_128_Gcm
            &&& config.srtp_protection_profiles@[1]
                == SrtpProtectionProfile::Srtp_Aes128_Cm_Hmac_Sha1_80
        },
        config.certificates@.len() == 1,
        config.certificates@[0] == certificate,
        config.client_auth == ClientAuthType::RequireAnyClientCert,
        config.insecure_skip_verify,
        config.replay_protection_window == window,
{
}

/// The handshake that a transport asks for offers the profiles of its settings, in their order, with
/// the replay window of the settings and the certificate that it was given.
pub proof fn law_handshake_follows_the_settings<R: Resources>(
    m: TransportModel<R>,
    endpoint: Arc<R::Endpoint>,
    ice_role: ICERole,
    certificate: R::Certificate,
    action: Action<R>,
)
    requires
        action@ == m.after_ice_role(IceRoleThen::Handshake { endpoint }, ice_role, certificate),
    ensures
        ({
            let offered = action->Handshake_config.srtp_protection_profiles@;
            let wanted = m.setting_engine.srtp_protection_profiles@;
            &&& wanted.len() != 0 ==> offered == wanted
            &&& wanted.len() == 0 ==> offered == seq![
                SrtpProtectionProfile::Srtp_Aead_Aes_128_Gcm,
                SrtpProtectionProfile::Srtp_Aes128_Cm_Hmac_Sha1_80,
            ]
        }),
        action->Handshake_config.replay_protection_window
            == m.setting_engine.replay_protection.dtls,
        action->Handshake_config.certificates@ == seq![certificate],
        action->Handshake_config.client_auth == ClientAuthType::RequireAnyClientCert,
        action->Handshake_config.insecure_skip_verify,
{
}

/// The result that an action brings, once the handler is told if it is to be.
pub open spec fn brought<R: Resources>(action: Action<R>) -> Option<Result<(), Error<R::Failure>>> {
    match action {
        Action::Done { result } => Some(result),
        Action::Notify { then: NotifyThen::Finish { result }, .. } => Some(result),
        _ => None,
    }
}

/// A handshake is good if it selected AES-GCM or AES-CM with the long tag. It connects the transport
/// exactly if it is good, the peer sent a certificate and verification is not switched off; then the
/// connection and the first certificate are kept. The transport fails exactly if the handshake
/// failed or is not good, or if verification is on and there is no certificate, and each of these
/// has its own error. A good handshake with verification off changes nothing but the profile, and
/// ends the negotiation well.
pub proof fn law_handshake_outcome<R: Resources>(
    m: TransportModel<R>,
    reply: Result<Handshake<R>, R::Failure>,
    action: Action<R>,
)
    requires
        action@ == m.after_handshake(reply).1,
    ensures
        ({
            let next = m.after_handshake(reply).0;
            let gcm = reply is Ok && reply->Ok_0.srtp_protection_profile
                == SrtpProtectionProfile::Srtp_Aead_Aes_128_Gcm;
            let cm = reply is Ok && reply->Ok_0.srtp_protection_profile
                == SrtpProtectionProfile::Srtp_Aes128_Cm_Hmac_Sha1_80;
            let verified = !m.setting_engine.disable_certificate_fingerprint_verification;
            let certified = reply is Ok && reply->Ok_0.peer_certificates@.len() != 0;
            &&& next.srtp_protection_profile == if gcm {
                ProtectionProfile::AeadAes128Gcm
            } else if cm {
                ProtectionProfile::Aes128CmHmacSha1_80
            } else {
                m.srtp_protection_profile
            }
            &&& (gcm || cm) && verified && certified ==> {
                &&& next.state == DTLSTransportState::Connected
                &&& next.conn == Some(Arc::new(reply->Ok_0.conn))
                &&& next.remote_certificate == reply->Ok_0.peer_certificates@[0]@
                &&& brought(action) is None
            }
            &&& (gcm || cm) && !verified ==> {
                &&& next == (TransportModel {
                    srtp_protection_profile: next.srtp_protection_profile,
                    ..m
                })
                &&& action is Done
                &&& action->Done_result is Ok
            }
            &&& !((gcm || cm) && (certified || !verified)) ==> {
                &&& next == (TransportModel {
                    state: DTLSTransportState::Failed,
                    srtp_protection_profile: next.srtp_protection_profile,
                    ..m
                })
                &&& brought(action) matches Some(Err(error))
                &&& reply is Err ==> error == Error::Outside(reply->Err_0)
                &&& reply is Ok && !gcm && !cm ==> error is ErrNoSRTPProtectionProfile
                &&& gcm || cm ==> error is ErrNoRemoteCertificate
            }
        }),
{
}

} // verus!
