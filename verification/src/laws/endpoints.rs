//! What a negotiation makes of what the ICE transport gives, and of a handler that was fired.
use crate::action::{Action, EndpointThen, IceRoleThen, IceStateThen, NotifyThen};
use crate::dtls_parameters::DTLSParameters;
use crate::dtls_transport_state::DTLSTransportState;
use crate::error::Error;
use crate::ice::{ICETransportState, Matcher};
use crate::laws::handshake::brought;
use crate::model::TransportModel;
use crate::resources::Resources;
use std::sync::Arc;
use vstd::prelude::*;

verus! {

/// Negotiation begins with a request for an endpoint that receives the packets of DTLS.
pub proof fn law_start_asks_for_dtls_packets<R: Resources>(
    m: TransportModel<R>,
    remote_parameters: DTLSParameters,
    action: Action<R>,
)
    requires
        action@ == m.start(remote_parameters),
    ensures
        action is NewEndpoint,
        action->NewEndpoint_matcher == Matcher::Dtls,
        action->NewEndpoint_then == (EndpointThen::<R>::Dtls { remote_parameters }),
{
}

/// Without an endpoint for the handshake the transport fails, and is otherwise as it was. With one,
/// nothing changes before the ICE transport is checked.
pub proof fn law_dtls_endpoint<R: Resources>(
    m: TransportModel<R>,
    remote_parameters: DTLSParameters,
    reply: Option<Arc<R::Endpoint>>,
    action: Action<R>,
)
    requires
        action@ == m.after_endpoint(EndpointThen::Dtls { remote_parameters }, reply).1,
    ensures
        ({
            let next = m.after_endpoint(EndpointThen::Dtls { remote_parameters }, reply).0;
            &&& reply is None ==> {
                &&& next == (TransportModel { state: DTLSTransportState::Failed, ..m })
                &&& brought(action) matches Some(Err(Error::Message(text)))
                &&& text@ == "ice_transport.new_endpoint failed"@
            }
            &&& reply matches Some(endpoint) ==> {
                &&& next == m
                &&& action is ReadIceState
                &&& action->ReadIceState_then == (IceStateThen::<R> { endpoint, remote_parameters })
            }
        }),
{
}

/// The check refuses an ICE transport that has not started, and then a transport that is not new,
/// each with its own error. Otherwise an endpoint that receives the packets of SRTP is next.
pub proof fn law_check_before_the_handshake<R: Resources>(
    m: TransportModel<R>,
    then: IceStateThen<R>,
    ice_state: ICETransportState,
    action: Action<R>,
)
    requires
        action@ == m.after_ice_state(then, ice_state),
    ensures
        action is Done <==> ice_state == ICETransportState::New || m.state
            != DTLSTransportState::New,
        action is Done ==> {
            &&& action->Done_result is Err
            &&& action->Done_result->Err_0 is ErrICEConnectionNotStarted <==> ice_state
                == ICETransportState::New
            &&& action->Done_result->Err_0 is ErrInvalidDTLSStart <==> ice_state
                != ICETransportState::New
        },
        !(action is Done) ==> {
            &&& action is NewEndpoint
            &&& action->NewEndpoint_matcher == Matcher::Srtp
            &&& action->NewEndpoint_then == (EndpointThen::<R>::Srtp {
                endpoint: then.endpoint,
                remote_parameters: then.remote_parameters,
            })
        },
{
}

/// The endpoints for SRTP and SRTCP are kept, each as its own, whether there is one or not. After the
/// first the second is asked for. After the second the remote parameters are kept, and the transport
/// is connecting: the handler is told, if there is one, and the ICE role is read for the handshake.
pub proof fn law_session_endpoints<R: Resources>(
    m: TransportModel<R>,
    endpoint: Arc<R::Endpoint>,
    remote_parameters: DTLSParameters,
    reply: Option<Arc<R::Endpoint>>,
    actions: (Action<R>, Action<R>),
)
    requires
        actions.0@ == m.after_endpoint(EndpointThen::Srtp { endpoint, remote_parameters }, reply).1,
        actions.1@ == m.after_endpoint(EndpointThen::Srtcp { endpoint, remote_parameters }, reply).1,
    ensures
        m.after_endpoint(EndpointThen::Srtp { endpoint, remote_parameters }, reply).0 == (
        TransportModel { srtp_endpoint: reply, ..m }),
        actions.0 is NewEndpoint,
        actions.0->NewEndpoint_matcher == Matcher::Srtcp,
        actions.0->NewEndpoint_then == (EndpointThen::<R>::Srtcp { endpoint, remote_parameters }),
        m.after_endpoint(EndpointThen::Srtcp { endpoint, remote_parameters }, reply).0 == (
        TransportModel {
            srtcp_endpoint: reply,
            remote_parameters: remote_parameters@,
            state: DTLSTransportState::Connecting,
            ..m
        }),
        m.on_state_change_handler is None ==> {
            &&& actions.1 is ReadIceRole
            &&& actions.1->ReadIceRole_then == (IceRoleThen::<R>::Handshake { endpoint })
        },
        m.on_state_change_handler matches Some(handler) ==> {
            &&& actions.1 is Notify
            &&& actions.1->Notify_handler == handler
            &&& actions.1->Notify_state == DTLSTransportState::Connecting
            &&& actions.1->Notify_then == (NotifyThen::<R>::Handshake { endpoint })
        },
{
}

/// After the handler was fired the operation goes on with what it was at, and the transport is as it
/// was: to the handshake, to the sessions, or to its end with the result that it had come to.
pub proof fn law_going_on_after_the_handler<R: Resources>(
    m: TransportModel<R>,
    then: NotifyThen<R>,
    action: Action<R>,
)
    requires
        action@ == m.after_notified(then@).1,
    ensures
        m.after_notified(then@).0 == m,
        then matches NotifyThen::Handshake { endpoint } ==> {
            &&& action is ReadIceRole
            &&& action->ReadIceRole_then == (IceRoleThen::<R>::Handshake { endpoint })
        },
        then is StartSrtp ==> action@ == m.start_srtp(),
        then matches NotifyThen::Finish { result } ==> {
            &&& action is Done
            &&& action->Done_result is Ok <==> result is Ok
            &&& result matches Err(error) ==> action->Done_result->Err_0@ == error@
        },
{
}

} // verus!
