use dtls_transport::action::{
    Action, CloseTarget, EndpointThen, Handshake, IceRoleThen, RtcpWrite, SessionThen,
};
use dtls_transport::config::{ClientAuthType, ReplayOption, SessionKeys};
use dtls_transport::dtls_parameters::DTLSParameters;
use dtls_transport::dtls_role::DTLSRole;
use dtls_transport::dtls_transport_state::DTLSTransportState;
use dtls_transport::error::Error;
use dtls_transport::ice::{ICERole, ICETransportState, Matcher};
use dtls_transport::protection_profile::{ProtectionProfile, SrtpProtectionProfile};
use dtls_transport::resources::Resources;
use dtls_transport::setting_engine::{ReplayProtection, SettingEngine};
use dtls_transport::transport::DTLSTransport;
use std::sync::Arc;

struct Plain;

impl Resources for Plain {
    type IceTransport = &'static str;
    type Endpoint = &'static str;
    type Certificate = &'static str;
    type Conn = &'static str;
    type Session = &'static str;
    type Stream = &'static str;
    type Handler = &'static str;
    type Failure = &'static str;
    type ReadyTx = Arc<()>;
    type ReadyRx = ();
}

type Transport = DTLSTransport<Plain>;

fn parameters(role: DTLSRole) -> DTLSParameters {
    DTLSParameters { role, fingerprints: vec![] }
}

fn transport(settings: SettingEngine) -> (Transport, Arc<()>) {
    let ready = Arc::new(());
    let t = DTLSTransport::new(
        Arc::new("ice"),
        vec!["first", "second"],
        Arc::new(settings),
        Arc::clone(&ready),
        (),
    );
    (t, ready)
}

/// Replies to each action; `None` for an endpoint means that there is none.
struct World {
    dtls: Option<&'static str>,
    ice_state: ICETransportState,
    srtp: Option<&'static str>,
    srtcp: Option<&'static str>,
    ice_role: ICERole,
    handshake: Result<(SrtpProtectionProfile, Vec<Vec<u8>>), &'static str>,
    keys: Result<u8, &'static str>,
    sessions: [Result<&'static str, &'static str>; 2],
}

fn good_world() -> World {
    World {
        dtls: Some("dtls"),
        ice_state: ICETransportState::Connected,
        srtp: Some("srtp"),
        srtcp: Some("srtcp"),
        ice_role: ICERole::Controlled,
        handshake: Ok((
            SrtpProtectionProfile::Srtp_Aead_Aes_128_Gcm,
            vec![vec![1, 2, 3], vec![4]],
        )),
        keys: Ok(9),
        sessions: [Ok("srtp session"), Ok("srtcp session")],
    }
}

fn keys(byte: u8) -> SessionKeys {
    SessionKeys {
        local_master_key: vec![byte],
        local_master_salt: vec![byte, 1],
        remote_master_key: vec![byte, 2],
        remote_master_salt: vec![byte, 3],
    }
}

/// Runs to the end and returns the result with a log of what was asked for.
fn run(t: &mut Transport, first: Action<Plain>, w: &World) -> (Result<(), Error<&'static str>>, Vec<String>) {
    let mut log = vec![];
    let mut action = first;
    loop {
        action = match action {
            Action::NewEndpoint { matcher, then } => {
                log.push(format!("endpoint {:?}", matcher));
                let reply = match matcher {
                    Matcher::Dtls => w.dtls,
                    Matcher::Srtp => w.srtp,
                    Matcher::Srtcp => w.srtcp,
                };
                assert_eq!(matcher == Matcher::Dtls, matches!(then, EndpointThen::Dtls { .. }));
                t.resume_endpoint(then, reply.map(Arc::new))
            }
            Action::ReadIceState { then } => t.resume_ice_state(then, w.ice_state),
            Action::Notify { handler, state, then } => {
                assert_eq!(t.state(), state);
                log.push(format!("{} {:?}", handler, state));
                t.resume_notified(then)
            }
            Action::ReadIceRole { then } => {
                log.push(match &then {
                    IceRoleThen::Handshake { .. } => "role".to_string(),
                    IceRoleThen::Srtp { conn, .. } => format!("role for {}", conn),
                });
                t.resume_ice_role(then, w.ice_role)
            }
            Action::Handshake { endpoint, config, is_client } => {
                assert_eq!(config.certificates, vec!["first"]);
                log.push(format!(
                    "handshake {} client={} {:?} {:?} skip={} window={}",
                    endpoint,
                    is_client,
                    config.srtp_protection_profiles,
                    config.client_auth,
                    config.insecure_skip_verify,
                    config.replay_protection_window
                ));
                assert_eq!(config.client_auth, ClientAuthType::RequireAnyClientCert);
                let reply = match &w.handshake {
                    Ok((profile, certs)) => Ok(Handshake {
                        conn: "conn",
                        srtp_protection_profile: *profile,
                        peer_certificates: certs.clone(),
                    }),
                    Err(failure) => Err(*failure),
                };
                t.resume_handshake(reply)
            }
            Action::ExtractKeys { conn, profile, is_client, then } => {
                log.push(format!("keys {} {:?} client={}", conn, profile, is_client));
                t.resume_keys(then, w.keys.map(keys))
            }
            Action::NewSession { endpoint, config, is_rtp, then } => {
                log.push(format!(
                    "session {} rtp={} key={:?} {:?} {:?} {:?}",
                    endpoint,
                    is_rtp,
                    config.keys.local_master_key,
                    config.profile,
                    config.remote_rtp_options,
                    config.remote_rtcp_options
                ));
                assert_eq!(is_rtp, matches!(then, SessionThen::Srtp { .. }));
                let reply = if is_rtp { w.sessions[0] } else { w.sessions[1] };
                t.resume_session(then, reply)
            }
            Action::Close { target, then } => {
                log.push(match target {
                    CloseTarget::Session(s) => format!("close session {}", s),
                    CloseTarget::Stream(s) => format!("close stream {}", s),
                    CloseTarget::Conn(c) => format!("close conn {}", c),
                });
                t.resume_closed(then, Ok(()))
            }
            Action::Done { result } => return (result, log),
        }
    }
}

fn start(t: &mut Transport, w: &World) -> (Result<(), Error<&'static str>>, Vec<String>) {
    let action = t.start(parameters(DTLSRole::Auto));
    run(t, action, w)
}

const OFFER: &str =
    "[Srtp_Aead_Aes_128_Gcm, Srtp_Aes128_Cm_Hmac_Sha1_80] RequireAnyClientCert skip=true";

#[test]
fn good_negotiation_connects() {
    let (mut t, ready) = transport(SettingEngine::default());
    t.on_state_change("handler");
    assert_eq!(t.state(), DTLSTransportState::New);
    assert!(t.get_remote_certificate().is_empty());
    assert_eq!(Arc::strong_count(&ready), 2);
    let (result, log) = start(&mut t, &good_world());
    assert!(result.is_ok());
    assert_eq!(
        log,
        vec![
            "endpoint Dtls".to_string(),
            "endpoint Srtp".to_string(),
            "endpoint Srtcp".to_string(),
            "handler Connecting".to_string(),
            "role".to_string(),
            format!("handshake dtls client=true {} window=0", OFFER),
            "handler Connected".to_string(),
            "role for conn".to_string(),
            "keys conn AeadAes128Gcm client=true".to_string(),
            "session srtp rtp=true key=[9] AeadAes128Gcm None None".to_string(),
            "session srtcp rtp=false key=[] AeadAes128Gcm None None".to_string(),
        ]
    );
    assert_eq!(t.state(), DTLSTransportState::Connected);
    assert_eq!(&t.get_remote_certificate()[..], &[1, 2, 3]);
    assert_eq!(&t.get_remote_certificate()[..], &[1, 2, 3]);
    assert_eq!(t.conn().as_deref(), Some(&"conn"));
    assert_eq!(t.get_srtp_session().as_deref(), Some(&"srtp session"));
    assert_eq!(t.get_srtcp_session().as_deref(), Some(&"srtcp session"));
    // The readiness signal was given up.
    assert_eq!(Arc::strong_count(&ready), 1);
}

#[test]
fn no_handler_is_told_nothing() {
    let (mut t, _ready) = transport(SettingEngine::default());
    let (result, log) = start(&mut t, &good_world());
    assert!(result.is_ok());
    assert!(log.iter().all(|line| !line.starts_with("handler")));
    assert_eq!(t.state(), DTLSTransportState::Connected);
}

#[test]
fn last_handler_is_fired() {
    let (mut t, _ready) = transport(SettingEngine::default());
    t.on_state_change("old");
    t.on_state_change("new");
    let (_, log) = start(&mut t, &World { dtls: None, ..good_world() });
    assert_eq!(log, vec!["endpoint Dtls".to_string(), "new Failed".to_string()]);
}

#[test]
fn missing_dtls_endpoint_fails() {
    let (mut t, ready) = transport(SettingEngine::default());
    let (result, _) = start(&mut t, &World { dtls: None, ..good_world() });
    assert!(matches!(result, Err(Error::Message(text)) if text == "ice_transport.new_endpoint failed"));
    assert_eq!(t.state(), DTLSTransportState::Failed);
    assert_eq!(Arc::strong_count(&ready), 2);
}

#[test]
fn ice_that_has_not_started_is_refused() {
    let (mut t, _ready) = transport(SettingEngine::default());
    t.on_state_change("handler");
    let w = World { ice_state: ICETransportState::New, ..good_world() };
    let (result, log) = start(&mut t, &w);
    assert!(matches!(result, Err(Error::ErrICEConnectionNotStarted)));
    assert_eq!(log, vec!["endpoint Dtls".to_string()]);
    assert_eq!(t.state(), DTLSTransportState::New);
    // The transport can still be negotiated.
    assert!(start(&mut t, &good_world()).0.is_ok());
}

#[test]
fn second_start_is_refused() {
    let (mut t, _ready) = transport(SettingEngine::default());
    assert!(start(&mut t, &good_world()).0.is_ok());
    let (result, log) = start(&mut t, &good_world());
    assert!(matches!(result, Err(Error::ErrInvalidDTLSStart)));
    assert_eq!(log, vec!["endpoint Dtls".to_string()]);
    assert_eq!(t.state(), DTLSTransportState::Connected);
    assert_eq!(t.conn().as_deref(), Some(&"conn"));
}

#[test]
fn failed_handshake_fails() {
    let (mut t, _ready) = transport(SettingEngine::default());
    t.on_state_change("handler");
    let (result, log) = start(&mut t, &World { handshake: Err("refused"), ..good_world() });
    assert!(matches!(result, Err(Error::Outside("refused"))));
    assert_eq!(log[3], "handler Connecting");
    assert_eq!(log.last().unwrap(), "handler Failed");
    assert_eq!(t.state(), DTLSTransportState::Failed);
    assert!(t.conn().is_none());
    assert!(t.get_remote_certificate().is_empty());
}

#[test]
fn handshake_without_usable_profile_fails() {
    for profile in [
        SrtpProtectionProfile::Srtp_Aes128_Cm_Hmac_Sha1_32,
        SrtpProtectionProfile::Srtp_Aead_Aes_256_Gcm,
        SrtpProtectionProfile::Unsupported,
    ] {
        let (mut t, _ready) = transport(SettingEngine::default());
        let w = World { handshake: Ok((profile, vec![vec![1]])), ..good_world() };
        let (result, _) = start(&mut t, &w);
        assert!(matches!(result, Err(Error::ErrNoSRTPProtectionProfile)));
        assert_eq!(t.state(), DTLSTransportState::Failed);
        assert!(t.conn().is_none());
    }
}

#[test]
fn handshake_without_certificate_fails() {
    let (mut t, _ready) = transport(SettingEngine::default());
    let profile = SrtpProtectionProfile::Srtp_Aes128_Cm_Hmac_Sha1_80;
    let w = World { handshake: Ok((profile, vec![])), ..good_world() };
    let (result, _) = start(&mut t, &w);
    assert!(matches!(result, Err(Error::ErrNoRemoteCertificate)));
    assert_eq!(t.state(), DTLSTransportState::Failed);
    assert!(t.get_remote_certificate().is_empty());
}

#[test]
fn skipped_verification_ends_while_connecting() {
    let settings = SettingEngine {
        disable_certificate_fingerprint_verification: true,
        ..SettingEngine::default()
    };
    let (mut t, ready) = transport(settings);
    t.on_state_change("handler");
    let (result, log) = start(&mut t, &good_world());
    assert!(result.is_ok());
    assert!(log.last().unwrap().starts_with("handshake"));
    assert_eq!(t.state(), DTLSTransportState::Connecting);
    assert!(t.conn().is_none());
    assert!(t.get_remote_certificate().is_empty());
    assert_eq!(Arc::strong_count(&ready), 2);
}

#[test]
fn failed_keys_leave_the_transport_connected() {
    let (mut t, ready) = transport(SettingEngine::default());
    let (result, _) = start(&mut t, &World { keys: Err("no keys"), ..good_world() });
    assert!(matches!(result, Err(Error::Outside("no keys"))));
    assert_eq!(t.state(), DTLSTransportState::Connected);
    assert!(t.get_srtp_session().is_none());
    assert_eq!(Arc::strong_count(&ready), 2);
}

#[test]
fn failed_srtp_session_stops_there() {
    let (mut t, ready) = transport(SettingEngine::default());
    let w = World { sessions: [Err("srtp"), Ok("srtcp session")], ..good_world() };
    let (result, log) = start(&mut t, &w);
    assert!(matches!(result, Err(Error::Outside("srtp"))));
    assert!(log.last().unwrap().starts_with("session srtp rtp=true"));
    assert!(t.get_srtp_session().is_none());
    assert!(t.get_srtcp_session().is_none());
    assert_eq!(Arc::strong_count(&ready), 2);
}

#[test]
fn failed_srtcp_session_keeps_the_srtp_session() {
    let (mut t, ready) = transport(SettingEngine::default());
    let w = World { sessions: [Ok("srtp session"), Err("srtcp")], ..good_world() };
    let (result, _) = start(&mut t, &w);
    assert!(matches!(result, Err(Error::Outside("srtcp"))));
    assert_eq!(t.get_srtp_session().as_deref(), Some(&"srtp session"));
    assert!(t.get_srtcp_session().is_none());
    assert_eq!(t.state(), DTLSTransportState::Connected);
    assert_eq!(Arc::strong_count(&ready), 2);
}

#[test]
fn missing_session_endpoints_are_no_error() {
    let (mut t, ready) = transport(SettingEngine::default());
    let (result, log) = start(&mut t, &World { srtp: None, srtcp: None, ..good_world() });
    assert!(result.is_ok());
    assert_eq!(log.last().unwrap(), "keys conn AeadAes128Gcm client=true");
    assert!(t.get_srtp_session().is_none());
    assert!(t.get_srtcp_session().is_none());
    assert_eq!(Arc::strong_count(&ready), 1);

    let (mut t, _ready) = transport(SettingEngine::default());
    assert!(start(&mut t, &World { srtp: None, ..good_world() }).0.is_ok());
    assert!(t.get_srtp_session().is_none());
    assert_eq!(t.get_srtcp_session().as_deref(), Some(&"srtcp session"));
}

#[test]
fn srtp_needs_a_connection() {
    let (mut t, _ready) = transport(SettingEngine::default());
    let action = t.start_srtp();
    let (result, log) = run(&mut t, action, &good_world());
    assert!(matches!(result, Err(Error::ErrDtlsTransportNotStarted)));
    assert!(log.is_empty());
}

#[test]
fn srtp_can_be_started_again() {
    let (mut t, _ready) = transport(SettingEngine::default());
    assert!(start(&mut t, &good_world()).0.is_ok());
    let action = t.start_srtp();
    let w = World { sessions: [Ok("a"), Ok("b")], ..good_world() };
    assert!(run(&mut t, action, &w).0.is_ok());
    assert_eq!(t.get_srtp_session().as_deref(), Some(&"a"));
    assert_eq!(t.get_srtcp_session().as_deref(), Some(&"b"));
}

#[test]
fn settings_reach_the_handshake_and_the_sessions() {
    let settings = SettingEngine {
        replay_protection: ReplayProtection { dtls: 128, srtp: 64, srtcp: 0 },
        disable_srtp_replay_protection: true,
        disable_srtcp_replay_protection: true,
        srtp_protection_profiles: vec![SrtpProtectionProfile::Srtp_Aes128_Cm_Hmac_Sha1_80],
        answering_dtls_role: DTLSRole::Server,
        disable_certificate_fingerprint_verification: false,
    };
    let (mut t, _ready) = transport(settings);
    let w = World {
        handshake: Ok((SrtpProtectionProfile::Srtp_Aes128_Cm_Hmac_Sha1_80, vec![vec![5]])),
        ..good_world()
    };
    let (result, log) = start(&mut t, &w);
    assert!(result.is_ok());
    assert!(log.contains(
        &"handshake dtls client=false [Srtp_Aes128_Cm_Hmac_Sha1_80] RequireAnyClientCert skip=true window=128"
            .to_string()
    ));
    assert!(log.contains(&"keys conn Aes128CmHmacSha1_80 client=false".to_string()));
    assert!(log.contains(
        &"session srtp rtp=true key=[9] Aes128CmHmacSha1_80 Some(Window(64)) None".to_string()
    ));
    assert!(log.contains(
        &"session srtcp rtp=false key=[] Aes128CmHmacSha1_80 None Some(Disabled)".to_string()
    ));
}

#[test]
fn remote_role_reaches_the_handshake() {
    let (mut t, _ready) = transport(SettingEngine::default());
    let action = t.start(parameters(DTLSRole::Client));
    let (result, log) = run(&mut t, action, &good_world());
    assert!(result.is_ok());
    assert!(log.contains(&format!("handshake dtls client=false {} window=0", OFFER)));
    assert!(log.contains(&"keys conn AeadAes128Gcm client=false".to_string()));
}

#[test]
fn rtcp_is_discarded_until_there_is_a_session() {
    let (mut t, _ready) = transport(SettingEngine::default());
    assert!(matches!(t.write_rtcp("packet"), RtcpWrite::Discard { written: 0 }));
    assert!(start(&mut t, &good_world()).0.is_ok());
    match t.write_rtcp("packet") {
        RtcpWrite::Send { session, pkt } => {
            assert_eq!(*session, "srtcp session");
            assert_eq!(pkt, "packet");
        }
        RtcpWrite::Discard { .. } => panic!("discarded"),
    }
}

#[test]
fn profiles_of_the_sessions() {
    assert_eq!(
        SrtpProtectionProfile::Srtp_Aead_Aes_128_Gcm.session_profile(),
        Some(ProtectionProfile::AeadAes128Gcm)
    );
    assert_eq!(
        SrtpProtectionProfile::Srtp_Aes128_Cm_Hmac_Sha1_80.session_profile(),
        Some(ProtectionProfile::Aes128CmHmacSha1_80)
    );
    assert_eq!(SrtpProtectionProfile::Unsupported.session_profile(), None);
    assert_eq!(ReplayOption::Window(3), ReplayOption::Window(3));
}
