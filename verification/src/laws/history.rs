//! What holds of a transport whatever is done with it, in any order.
use crate::action::{
    ActionModel, CloseThenModel, EndpointThen, Handshake, IceRoleThen, IceStateThen, KeysThen,
    NotifyThenModel, SessionThen,
};
use crate::config::SessionKeysModel;
use crate::dtls_parameters::DTLSParameters;
use crate::dtls_transport_state::DTLSTransportState;
use crate::ice::{ICERole, ICETransportState};
use crate::model::TransportModel;
use crate::protection_profile::session_profile;
use crate::resources::Resources;
use std::sync::Arc;
use vstd::prelude::*;

verus! {

/// Anything that can be done with a transport, with everything that it is given.
#[allow(inconsistent_fields)]
pub enum Input<R: Resources> {
    OnStateChange { handler: R::Handler },
    StoreSimulcastStream { stream: Arc<R::Stream> },
    Start { remote_parameters: DTLSParameters },
    ResumeEndpoint { then: EndpointThen<R>, reply: Option<Arc<R::Endpoint>> },
    ResumeIceState { then: IceStateThen<R>, ice_state: ICETransportState },
    ResumeNotified { then: NotifyThenModel<R> },
    /// With the clone of the first certificate that a handshake presents.
    ResumeIceRole { then: IceRoleThen<R>, ice_role: ICERole, certificate: R::Certificate },
    ResumeHandshake { reply: Result<Handshake<R>, R::Failure> },
    StartSrtp,
    ResumeKeys { then: KeysThen, reply: Result<SessionKeysModel, R::Failure> },
    ResumeSession { then: SessionThen, reply: Result<R::Session, R::Failure> },
    Stop,
    ResumeClosed { then: CloseThenModel<R>, error: Option<Seq<char>> },
}

/// The transport after an input. Those that only return an action leave it as it is.
pub open spec fn after<R: Resources>(m: TransportModel<R>, input: Input<R>) -> TransportModel<R> {
    match input {
        Input::OnStateChange { handler } => TransportModel {
            on_state_change_handler: Some(Arc::new(handler)),
            ..m
        },
        Input::StoreSimulcastStream { stream } => TransportModel {
            simulcast_streams: m.simulcast_streams.push(stream),
            ..m
        },
        Input::ResumeEndpoint { then, reply } => m.after_endpoint(then, reply).0,
        Input::ResumeNotified { then } => m.after_notified(then).0,
        Input::ResumeHandshake { reply } => m.after_handshake(reply).0,
        Input::ResumeKeys { then, reply } => m.after_keys(then, reply).0,
        Input::ResumeSession { then, reply } => m.after_session(then, reply).0,
        Input::Stop => m.stop().0,
        Input::ResumeClosed { then, error } => m.after_closed(then, error).0,
        _ => m,
    }
}

/// The action that an input leads to, if it leads to one.
pub open spec fn asked<R: Resources>(m: TransportModel<R>, input: Input<R>) -> Option<
    ActionModel<R>,
> {
    match input {
        Input::OnStateChange { .. } => None,
        Input::StoreSimulcastStream { .. } => None,
        Input::Start { remote_parameters } => Some(m.start(remote_parameters)),
        Input::ResumeEndpoint { then, reply } => Some(m.after_endpoint(then, reply).1),
        Input::ResumeIceState { then, ice_state } => Some(m.after_ice_state(then, ice_state)),
        Input::ResumeNotified { then } => Some(m.after_notified(then).1),
        Input::ResumeIceRole { then, ice_role, certificate } => Some(
            m.after_ice_role(then, ice_role, certificate),
        ),
        Input::ResumeHandshake { reply } => Some(m.after_handshake(reply).1),
        Input::StartSrtp => Some(m.start_srtp()),
        Input::ResumeKeys { then, reply } => Some(m.after_keys(then, reply).1),
        Input::ResumeSession { then, reply } => Some(m.after_session(then, reply).1),
        Input::Stop => Some(m.stop().1),
        Input::ResumeClosed { then, error } => Some(m.after_closed(then, error).1),
    }
}

/// The transport after inputs, one after the other.
pub open spec fn after_all<R: Resources>(m: TransportModel<R>, inputs: Seq<Input<R>>) -> TransportModel<
    R,
>
    decreases inputs.len(),
{
    if inputs.len() == 0 {
        m
    } else {
        after(after_all(m, inputs.drop_last()), inputs.last())
    }
}

/// Whether an input is a handshake that gives the transport its connection and the remote
/// certificate.
pub open spec fn selects_certificate<R: Resources>(m: TransportModel<R>, input: Input<R>) -> bool {
    &&& !m.setting_engine.disable_certificate_fingerprint_verification
    &&& input matches Input::ResumeHandshake { reply: Ok(handshake) }
    &&& session_profile(handshake.srtp_protection_profile) is Some
    &&& handshake.peer_certificates@.len() > 0
}

/// Whether two transports were configured the same.
pub open spec fn same_configuration<R: Resources>(
    a: TransportModel<R>,
    b: TransportModel<R>,
) -> bool {
    &&& a.ice_transport == b.ice_transport
    &&& a.certificates == b.certificates
    &&& a.setting_engine == b.setting_engine
    &&& a.dtls_matcher == b.dtls_matcher
    &&& a.srtp_ready_rx == b.srtp_ready_rx
}

/// Every operation, whatever it is given, keeps the transport well-formed and its configuration as
/// it was. No operation makes it new again or takes its connection away, the streams only grow, and
/// a readiness signal that was given up does not come back.
pub proof fn law_every_input_keeps_the_transport<R: Resources>(
    m: TransportModel<R>,
    input: Input<R>,
)
    requires
        m.wf(),
    ensures
        after(m, input).wf(),
        same_configuration(m, after(m, input)),
        after(m, input).state == DTLSTransportState::New ==> m.state == DTLSTransportState::New,
        m.conn is Some ==> after(m, input).conn is Some,
        m.simulcast_streams.is_prefix_of(after(m, input).simulcast_streams),
        m.srtp_ready_tx is None ==> after(m, input).srtp_ready_tx is None,
{
}

/// Each part of the transport is changed by the operations that are meant to change it, and by no
/// other: the handler by `on_state_change`, the streams by `store_simulcast_stream`, the endpoints and
/// the remote parameters by replies of the ICE transport, the connection and the remote certificate
/// by a handshake that selects one, the sessions by keys, by sessions that were opened and by a
/// shutdown, the readiness signal by keys and by sessions that were opened, and the state by
/// endpoints, handshakes and a shutdown, each of which leads to states of its own.
pub proof fn law_what_each_input_changes<R: Resources>(m: TransportModel<R>, input: Input<R>)
    ensures
        !(input is OnStateChange) ==> after(m, input).on_state_change_handler
            == m.on_state_change_handler,
        !(input is StoreSimulcastStream) ==> after(m, input).simulcast_streams
            == m.simulcast_streams,
        !selects_certificate(m, input) ==> after(m, input).conn == m.conn && after(
            m,
            input,
        ).remote_certificate == m.remote_certificate,
        !(input is ResumeEndpoint) ==> after(m, input).remote_parameters == m.remote_parameters
            && after(m, input).srtp_endpoint == m.srtp_endpoint && after(m, input).srtcp_endpoint
            == m.srtcp_endpoint,
        !(input is ResumeHandshake) ==> after(m, input).srtp_protection_profile
            == m.srtp_protection_profile,
        after(m, input).srtp_session != m.srtp_session ==> input is ResumeKeys || input
            is ResumeSession || input is Stop,
        after(m, input).srtcp_session != m.srtcp_session ==> input is ResumeKeys || input
            is ResumeSession || input is Stop || input is ResumeClosed,
        after(m, input).srtp_ready_tx != m.srtp_ready_tx ==> input is ResumeKeys || input
            is ResumeSession,
        after(m, input).state != m.state ==> input is ResumeEndpoint || input is ResumeHandshake
            || input is Stop || input is ResumeClosed,
        after(m, input).state == DTLSTransportState::Connecting && m.state
            != DTLSTransportState::Connecting ==> input is ResumeEndpoint,
        after(m, input).state == DTLSTransportState::Connected && m.state
            != DTLSTransportState::Connected ==> selects_certificate(m, input),
        after(m, input).state == DTLSTransportState::Failed && m.state
            != DTLSTransportState::Failed ==> input is ResumeEndpoint || input is ResumeHandshake,
        after(m, input).state == DTLSTransportState::Closed && m.state
            != DTLSTransportState::Closed ==> input is Stop || input is ResumeClosed,
{
}

/// The handler is fired when the state changes: an operation that changes the state of a transport
/// with a handler asks at once for that handler to be fired, with the new state. And a handler is
/// fired with nothing but the state that the transport has then.
pub proof fn law_handler_is_fired_when_the_state_changes<R: Resources>(
    m: TransportModel<R>,
    input: Input<R>,
)
    ensures
        m.on_state_change_handler is Some && after(m, input).state != m.state ==> asked(
            m,
            input,
        ) matches Some(ActionModel::Notify { .. }),
        asked(m, input) matches Some(ActionModel::Notify { handler, state, then })
            ==> m.on_state_change_handler == Some(handler) && state == after(m, input).state,
        m.on_state_change_handler is None ==> !(asked(m, input) matches Some(
            ActionModel::Notify { .. },
        )),
{
}

/// A handshake that selects a certificate connects the transport, and the remote certificate is then
/// the first one that the peer sent.
pub proof fn law_selected_certificate_is_the_first<R: Resources>(
    m: TransportModel<R>,
    handshake: Handshake<R>,
)
    requires
        selects_certificate(m, Input::ResumeHandshake { reply: Ok(handshake) }),
    ensures
        ({
            let connected = after(m, Input::ResumeHandshake { reply: Ok(handshake) });
            &&& connected.state == DTLSTransportState::Connected
            &&& connected.conn == Some(Arc::new(handshake.conn))
            &&& connected.remote_certificate == handshake.peer_certificates@[0]@
        }),
{
}

/// What holds of a transport when it is made holds after any operations, in any order: it stays
/// well-formed, its configuration stays what it was, its connection is not taken away, and once it
/// is not new it never is again.
pub proof fn law_any_history_keeps_the_transport<R: Resources>(
    m: TransportModel<R>,
    inputs: Seq<Input<R>>,
)
    requires
        m.wf(),
    ensures
        after_all(m, inputs).wf(),
        same_configuration(m, after_all(m, inputs)),
        m.conn is Some ==> after_all(m, inputs).conn is Some,
        after_all(m, inputs).state == DTLSTransportState::New ==> m.state
            == DTLSTransportState::New,
    decreases inputs.len(),
{
    if inputs.len() > 0 {
        law_any_history_keeps_the_transport(m, inputs.drop_last());
        law_every_input_keeps_the_transport(after_all(m, inputs.drop_last()), inputs.last());
    }
}

/// The remote certificate is empty prior to its selection: whatever is done with a transport that has
/// no connection, the certificate is empty, and there is no connection, as long as no handshake
/// selected one.
pub proof fn law_remote_certificate_is_empty_until_selected<R: Resources>(
    m: TransportModel<R>,
    inputs: Seq<Input<R>>,
)
    requires
        m.wf(),
        m.conn is None,
        forall|i: int|
            0 <= i < inputs.len() ==> !selects_certificate(
                after_all(m, inputs.take(i)),
                #[trigger] inputs[i],
            ),
    ensures
        after_all(m, inputs).conn is None,
        after_all(m, inputs).remote_certificate.len() == 0,
    decreases inputs.len(),
{
    if inputs.len() > 0 {
        let before = inputs.drop_last();
        assert forall|i: int| 0 <= i < before.len() implies !selects_certificate(
            after_all(m, before.take(i)),
            #[trigger] before[i],
        ) by {
            assert(before.take(i) =~= inputs.take(i));
            assert(before[i] == inputs[i]);
        }
        law_remote_certificate_is_empty_until_selected(m, before);
        assert(inputs.take(inputs.len() - 1) =~= before);
        assert(inputs[inputs.len() - 1] == inputs.last());
        law_any_history_keeps_the_transport(m, inputs);
        law_what_each_input_changes(after_all(m, before), inputs.last());
    }
}

} // verus!
