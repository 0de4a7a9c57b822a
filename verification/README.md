# dtls_transport

The DTLS transport of a WebRTC peer, written in Verus.

`src/` is the transport as a state machine without input or output. `transport::DTLSTransport` holds
what the transport remembers; each of its operations returns an `action::Action` for the caller to
perform, and takes the reply in the method that the action names.

- `transport`: the transport and its operations, each proved against `model`.
- `model`: what a transport holds, as a mathematical value, and how every operation and every reply
  changes it.
- `action`: what the transport asks for.
- `laws`: what holds of the transport as a whole: `roles` of the peers, any `history` of operations,
  and how a whole `negotiation` or `shutdown` ends.
- `outside`: what is taken on trust from the crates `bytes` and `webrtc-dtls`.
- `config`, `dtls_parameters`, `dtls_role`, `dtls_transport_state`, `error`, `ice`,
  `protection_profile`, `resources`, `setting_engine`: the values that these work with.

`app/` performs the actions with real ICE endpoints, DTLS connections and SRTP sessions.
