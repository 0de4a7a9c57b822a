use dtls_transport::action::{Action, NotifyThen};
use dtls_transport::config::{replay_option, ClientAuthType, ReplayOption};
use dtls_transport::dtls_parameters::{DTLSFingerprint, DTLSParameters};
use dtls_transport::dtls_role::{DTLSRole, DEFAULT_DTLS_ROLE_ANSWER};
use dtls_transport::dtls_transport_state::DTLSTransportState;
use dtls_transport::error::{flatten_errs, Error};
use dtls_transport::ice::{ICERole, ICETransportState};
use dtls_transport::protection_profile::{
    default_srtp_protection_profiles, ProtectionProfile, SrtpProtectionProfile,
};
use dtls_transport::resources::Resources;
use dtls_transport::setting_engine::SettingEngine;
use dtls_transport::transport::DTLSTransport;
use std::sync::Arc;

struct Plain;

impl Resources for Plain {
    type IceTransport = &'static str;
    type Endpoint = ();
    type Certificate = u8;
    type Conn = ();
    type Session = ();
    type Stream = ();
    type Handler = ();
    type Failure = ();
    type ReadyTx = ();
    type ReadyRx = ();
}

/// A transport that was told the role of the remote peer.
fn told(answering: DTLSRole, remote: DTLSRole) -> DTLSTransport<Plain> {
    let settings = SettingEngine { answering_dtls_role: answering, ..SettingEngine::default() };
    let mut t = DTLSTransport::new(Arc::new("ice"), vec![1, 2], Arc::new(settings), (), ());
    let fingerprint = DTLSFingerprint { algorithm: "sha-256".to_string(), value: "00".to_string() };
    let mut action = t.start(DTLSParameters { role: remote, fingerprints: vec![fingerprint] });
    loop {
        action = match action {
            Action::NewEndpoint { then, .. } => t.resume_endpoint(then, Some(Arc::new(()))),
            Action::ReadIceState { then } => t.resume_ice_state(then, ICETransportState::Checking),
            _ => return t,
        }
    }
}

#[test]
fn test_peer_connection_dtls_role_setting_engine() {
    let t = told(DTLSRole::Server, DTLSRole::Auto);
    assert_eq!(t.role(ICERole::Controlled), DTLSRole::Server);
    assert_eq!(t.role(ICERole::Controlling), DTLSRole::Server);
    let t = told(DTLSRole::Client, DTLSRole::Unspecified);
    assert_eq!(t.role(ICERole::Controlled), DTLSRole::Client);
    assert_eq!(t.role(ICERole::Controlling), DTLSRole::Client);
}

#[test]
fn explicit_remote_role_is_inverted() {
    for answering in [DTLSRole::Auto, DTLSRole::Client, DTLSRole::Server] {
        for ice in [ICERole::Controlling, ICERole::Controlled, ICERole::Unspecified] {
            assert_eq!(told(answering, DTLSRole::Client).role(ice), DTLSRole::Server);
            assert_eq!(told(answering, DTLSRole::Server).role(ice), DTLSRole::Client);
        }
    }
}

#[test]
fn ice_role_settles_the_rest() {
    let t = told(DTLSRole::Auto, DTLSRole::Auto);
    assert_eq!(t.role(ICERole::Controlling), DTLSRole::Server);
    assert_eq!(t.role(ICERole::Controlled), DTLSRole::Client);
    assert_eq!(t.role(ICERole::Unspecified), DEFAULT_DTLS_ROLE_ANSWER);
    assert_eq!(DEFAULT_DTLS_ROLE_ANSWER, DTLSRole::Client);
}

#[test]
fn told_role_is_complemented() {
    let role = told(DTLSRole::Auto, DTLSRole::Auto).role(ICERole::Controlling);
    let other = told(DTLSRole::Server, role).role(ICERole::Controlling);
    assert_eq!((role, other), (DTLSRole::Server, DTLSRole::Client));
}

#[test]
fn prepared_handshake() {
    let t = told(DTLSRole::Auto, DTLSRole::Server);
    let (role, config) = t.prepare_transport(ICERole::Unspecified);
    assert_eq!(role, DTLSRole::Client);
    assert_eq!(config.certificates, vec![1]);
    assert_eq!(config.srtp_protection_profiles, default_srtp_protection_profiles());
    assert_eq!(config.client_auth, ClientAuthType::RequireAnyClientCert);
    assert!(config.insecure_skip_verify);
    assert_eq!(config.replay_protection_window, 0);
}

#[test]
fn local_parameters_are_the_default_ones() {
    let t = told(DTLSRole::Client, DTLSRole::Server);
    match t.get_local_parameters() {
        Ok(parameters) => {
            assert_eq!(parameters.role, DTLSRole::Auto);
            assert!(parameters.fingerprints.is_empty());
        }
        Err(_) => panic!("no parameters"),
    }
}

#[test]
fn ice_must_have_started() {
    let t = told(DTLSRole::Auto, DTLSRole::Auto);
    assert!(matches!(
        t.ensure_ice_conn(ICETransportState::New),
        Err(Error::ErrICEConnectionNotStarted)
    ));
    for state in [
        ICETransportState::Unspecified,
        ICETransportState::Checking,
        ICETransportState::Connected,
        ICETransportState::Completed,
        ICETransportState::Failed,
        ICETransportState::Disconnected,
        ICETransportState::Closed,
    ] {
        assert!(t.ensure_ice_conn(state).is_ok());
    }
}

#[test]
fn fingerprints_are_not_compared() {
    let t = told(DTLSRole::Auto, DTLSRole::Auto);
    assert!(t.validate_fingerprint(&[]).is_ok());
    assert!(t.validate_fingerprint(&[1, 2]).is_ok());
}

#[test]
fn configured_and_unconfigured_transports() {
    let t = told(DTLSRole::Auto, DTLSRole::Auto);
    assert_eq!(t.ice_transport().as_deref(), Some(&"ice"));
    assert!(t.has_certificate());
    assert_eq!(t.state(), DTLSTransportState::Connecting);

    let t = DTLSTransport::<Plain>::default();
    assert!(t.ice_transport().is_none());
    assert!(!t.has_certificate());
    assert_eq!(t.state(), DTLSTransportState::Unspecified);
    assert!(t.get_remote_certificate().is_empty());
    assert!(t.conn().is_none());
    let finish = NotifyThen::Finish { result: Ok(()) };
    assert!(matches!(t.resume_notified(finish), Action::Done { result: Ok(()) }));
}

#[test]
fn window_wins_over_switch() {
    assert_eq!(replay_option(0, false), None);
    assert_eq!(replay_option(0, true), Some(ReplayOption::Disabled));
    assert_eq!(replay_option(64, false), Some(ReplayOption::Window(64)));
    assert_eq!(replay_option(64, true), Some(ReplayOption::Window(64)));
}

#[test]
fn errors_are_joined_by_lines() {
    let flat = |texts: &[&str]| -> Result<(), Error<()>> {
        flatten_errs(&texts.iter().map(|t| t.to_string()).collect())
    };
    assert!(flat(&[]).is_ok());
    assert!(matches!(flat(&["one"]), Err(Error::Message(text)) if text == "one"));
    assert!(matches!(flat(&[""]), Err(Error::Message(text)) if text.is_empty()));
    assert!(matches!(flat(&["one", "", "two"]), Err(Error::Message(text)) if text == "one\n\ntwo"));
}

#[test]
fn default_values() {
    assert_eq!(DTLSRole::default(), DTLSRole::Auto);
    assert_eq!(ProtectionProfile::default(), ProtectionProfile::Aes128CmHmacSha1_80);
    assert_eq!(
        default_srtp_protection_profiles(),
        vec![
            SrtpProtectionProfile::Srtp_Aead_Aes_128_Gcm,
            SrtpProtectionProfile::Srtp_Aes128_Cm_Hmac_Sha1_80,
        ]
    );
}

struct Real;

impl Resources for Real {
    type IceTransport = ();
    type Endpoint = ();
    type Certificate = webrtc_dtls::crypto::Certificate;
    type Conn = ();
    type Session = ();
    type Stream = ();
    type Handler = ();
    type Failure = ();
    type ReadyTx = ();
    type ReadyRx = ();
}

#[test]
fn first_of_the_real_certificates_is_presented() {
    let make = |name: &str| {
        webrtc_dtls::crypto::Certificate::generate_self_signed(vec![name.to_string()]).unwrap()
    };
    let (first, second) = (make("first"), make("second"));
    let t = DTLSTransport::<Real>::new(
        Arc::new(()),
        vec![first.clone(), second],
        Arc::new(SettingEngine::default()),
        (),
        (),
    );
    let (role, config) = t.prepare_transport(ICERole::Controlling);
    assert_eq!(role, DTLSRole::Server);
    assert_eq!(config.certificates.len(), 1);
    assert!(config.certificates[0] == first);
}
