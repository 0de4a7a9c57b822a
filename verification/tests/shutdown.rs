use dtls_transport::action::{Action, CloseTarget, Handshake, RtcpWrite};
use dtls_transport::config::SessionKeys;
use dtls_transport::dtls_parameters::DTLSParameters;
use dtls_transport::dtls_transport_state::DTLSTransportState;
use dtls_transport::error::Error;
use dtls_transport::ice::{ICERole, ICETransportState};
use dtls_transport::protection_profile::SrtpProtectionProfile;
use dtls_transport::resources::Resources;
use dtls_transport::setting_engine::SettingEngine;
use dtls_transport::transport::DTLSTransport;
use std::sync::Arc;

struct Plain;

impl Resources for Plain {
    type IceTransport = ();
    type Endpoint = ();
    type Certificate = ();
    type Conn = &'static str;
    type Session = &'static str;
    type Stream = &'static str;
    type Handler = ();
    type Failure = ();
    type ReadyTx = ();
    type ReadyRx = ();
}

type Transport = DTLSTransport<Plain>;

fn new() -> Transport {
    DTLSTransport::new(Arc::new(()), vec![()], Arc::new(SettingEngine::default()), (), ())
}

/// Runs to the end; `texts` are what closing the targets comes to, one after the other.
fn run(
    t: &mut Transport,
    first: Action<Plain>,
    texts: &[Option<&str>],
) -> (Result<(), Error<()>>, Vec<String>) {
    let mut closed = vec![];
    let mut action = first;
    loop {
        action = match action {
            Action::NewEndpoint { then, .. } => t.resume_endpoint(then, Some(Arc::new(()))),
            Action::ReadIceState { then } => t.resume_ice_state(then, ICETransportState::Completed),
            Action::Notify { state, then, .. } => {
                closed.push(format!("{:?}", state));
                t.resume_notified(then)
            }
            Action::ReadIceRole { then } => t.resume_ice_role(then, ICERole::Controlling),
            Action::Handshake { .. } => t.resume_handshake(Ok(Handshake {
                conn: "conn",
                srtp_protection_profile: SrtpProtectionProfile::Srtp_Aead_Aes_128_Gcm,
                peer_certificates: vec![vec![7]],
            })),
            Action::ExtractKeys { then, .. } => t.resume_keys(then, Ok(SessionKeys::default())),
            Action::NewSession { is_rtp, then, .. } => {
                t.resume_session(then, Ok(if is_rtp { "srtp" } else { "srtcp" }))
            }
            Action::Close { target, then } => {
                let reply = match texts[closed.len()] {
                    Some(text) => Err(text.to_string()),
                    None => Ok(()),
                };
                closed.push(match target {
                    CloseTarget::Session(s) => format!("session {}", s),
                    CloseTarget::Stream(s) => format!("stream {}", s),
                    CloseTarget::Conn(c) => format!("conn {}", c),
                });
                t.resume_closed(then, reply)
            }
            Action::Done { result } => return (result, closed),
        }
    }
}

fn connected() -> Transport {
    let mut t = new();
    let action = t.start(DTLSParameters::default());
    assert!(run(&mut t, action, &[]).0.is_ok());
    t.store_simulcast_stream(Arc::new("one"));
    t.store_simulcast_stream(Arc::new("two"));
    t
}

fn stop(t: &mut Transport, texts: &[Option<&str>]) -> (Result<(), Error<()>>, Vec<String>) {
    let action = t.stop();
    run(t, action, texts)
}

#[test]
fn everything_is_closed_in_order() {
    let mut t = connected();
    t.on_state_change(());
    let (result, closed) = stop(&mut t, &[None; 5]);
    assert!(result.is_ok());
    assert_eq!(
        closed,
        ["session srtp", "session srtcp", "stream one", "stream two", "conn conn", "Closed"]
    );
    assert_eq!(t.state(), DTLSTransportState::Closed);
    assert!(t.get_srtp_session().is_none());
    assert!(t.get_srtcp_session().is_none());
    assert_eq!(t.conn().as_deref(), Some(&"conn"));
    assert_eq!(&t.get_remote_certificate()[..], &[7]);
    assert!(matches!(t.write_rtcp(1), RtcpWrite::Discard { written: 0 }));
}

#[test]
fn errors_are_collected_and_the_rest_is_closed() {
    let mut t = connected();
    let texts = [Some("a"), None, Some("b"), Some("c"), Some("d")];
    let (result, closed) = stop(&mut t, &texts);
    assert_eq!(closed.len(), 5);
    assert!(matches!(result, Err(Error::Message(text)) if text == "a\nb\nc\nd"));
    assert_eq!(t.state(), DTLSTransportState::Closed);
}

#[test]
fn closed_connection_is_no_error() {
    let closed_text = webrtc_dtls::error::Error::ErrConnClosed.to_string();
    let mut t = connected();
    let (result, _) = stop(&mut t, &[None, None, None, None, Some(&closed_text)]);
    assert!(result.is_ok());

    let mut t = connected();
    let (result, _) = stop(&mut t, &[None, None, None, None, Some("conn is")]);
    assert!(matches!(result, Err(Error::Message(text)) if text == "conn is"));

    // Of anything but the connection it is an error.
    let mut t = connected();
    let (result, _) = stop(&mut t, &[None, None, Some(&closed_text), None, None]);
    assert!(matches!(result, Err(Error::Message(text)) if text == "conn is closed"));
}

#[test]
fn second_stop_closes_no_session() {
    let mut t = connected();
    assert!(stop(&mut t, &[None; 5]).0.is_ok());
    let (result, closed) = stop(&mut t, &[None; 3]);
    assert!(result.is_ok());
    assert_eq!(closed, ["stream one", "stream two", "conn conn"]);
}

#[test]
fn new_transport_has_nothing_to_close() {
    let mut t = new();
    let (result, closed) = stop(&mut t, &[]);
    assert!(result.is_ok());
    assert!(closed.is_empty());
    assert_eq!(t.state(), DTLSTransportState::Closed);
}

#[test]
fn stopped_transport_cannot_start() {
    let mut t = new();
    assert!(stop(&mut t, &[]).0.is_ok());
    let action = t.start(DTLSParameters::default());
    assert!(matches!(run(&mut t, action, &[]).0, Err(Error::ErrInvalidDTLSStart)));
    assert_eq!(t.state(), DTLSTransportState::Closed);
}

#[test]
fn shutdown_closes_the_streams_that_it_finds() {
    // The sessions are closed first; a stream that is stored meanwhile is found.
    let mut t = connected();
    let action = t.stop();
    t.store_simulcast_stream(Arc::new("three"));
    let (result, closed) = run(&mut t, action, &[None; 6]);
    assert!(result.is_ok());
    assert_eq!(closed[4], "stream three");

    // One that is stored while the streams are being closed is not.
    let mut t = new();
    t.store_simulcast_stream(Arc::new("one"));
    let action = t.stop();
    t.store_simulcast_stream(Arc::new("two"));
    let (_, closed) = run(&mut t, action, &[None]);
    assert_eq!(closed, ["stream one"]);
}
