//! What a shutdown closes, what it reports, and how it goes from one target to the next.
use crate::action::{ActionModel, CloseTarget, CloseThenModel, NotifyThenModel};
use crate::dtls_transport_state::DTLSTransportState;
use crate::error::{flattened, joined, ErrorModel};
use crate::laws::shutdown::{
    conn_target, law_stop_closes_everything, law_stop_succeeds_exactly, session_target,
    stop_outcome, stream_targets, targets,
};
use crate::model::TransportModel;
use crate::resources::Resources;
use vstd::prelude::*;

verus! {

/// How many there are of something that may be there or not.
pub open spec fn count<T>(optional: Option<T>) -> int {
    if optional is Some {
        1
    } else {
        0
    }
}

/// A shutdown closes the SRTP session first, if there is one, then the SRTCP session, then the
/// streams in the order in which they were stored, and the connection last; and nothing else.
/// It ends without an error exactly if every target could be closed, or the connection, and only the
/// connection, was closed already. It leaves the transport closed, without sessions and otherwise as
/// it was, and fires the handler once, if there is one, with just that state.
pub proof fn law_order_of_a_shutdown<R: Resources>(
    m: TransportModel<R>,
    replies: Seq<Option<Seq<char>>>,
)
    requires
        replies.len() == count(m.srtp_session) + count(m.srtcp_session) + m.simulcast_streams.len()
            + count(m.conn),
    ensures
        ({
            let shutdown = stop_outcome(m, replies);
            let sessions = count(m.srtp_session) + count(m.srtcp_session);
            let streams = m.simulcast_streams.len();
            &&& shutdown.closed.len() == replies.len()
            &&& m.srtp_session matches Some(session) ==> shutdown.closed[0]
                == CloseTarget::<R>::Session(session)
            &&& m.srtcp_session matches Some(session) ==> shutdown.closed[count(
                m.srtp_session,
            )]
                == CloseTarget::<R>::Session(session)
            &&& forall|i: int|
                0 <= i < streams ==> shutdown.closed[sessions + i] == CloseTarget::<R>::Stream(
                    #[trigger] m.simulcast_streams[i],
                )
            &&& m.conn matches Some(conn) ==> shutdown.closed[sessions + streams]
                == CloseTarget::<R>::Conn(conn)
            &&& shutdown.result matches Some(result)
            &&& result is Ok <==> forall|i: int|
                0 <= i < replies.len() ==> {
                    ||| #[trigger] replies[i] is None
                    ||| i == sessions + streams && replies[i] == Some("conn is closed"@)
                }
            &&& shutdown.transport == (TransportModel {
                state: DTLSTransportState::Closed,
                srtp_session: None,
                srtcp_session: None,
                ..m
            })
            &&& m.on_state_change_handler is None ==> shutdown.fired.len() == 0
            &&& m.on_state_change_handler matches Some(handler) ==> {
                &&& shutdown.fired.len() == 1
                &&& shutdown.fired[0] == (handler, DTLSTransportState::Closed)
            }
        }),
{
    let srtp = session_target::<R>(m.srtp_session);
    let srtcp = session_target::<R>(m.srtcp_session);
    let streams = stream_targets::<R>(m.simulcast_streams);
    let conn = conn_target::<R>(m.conn);
    assert(targets(m) =~= srtp + srtcp + streams + conn);
    assert(srtp.len() == count(m.srtp_session));
    assert(srtcp.len() == count(m.srtcp_session));
    assert(conn.len() == count(m.conn));
    law_stop_closes_everything(m, replies);
    law_stop_succeeds_exactly(m, replies);
    assert forall|i: int| 0 <= i < replies.len() implies (targets(m)[i] is Conn <==> i == srtp.len()
        + srtcp.len() + streams.len()) by {
        if i < srtp.len() {
            assert(targets(m)[i] == srtp[i]);
        } else if i < srtp.len() + srtcp.len() {
            assert(targets(m)[i] == srtcp[i - srtp.len()]);
        } else if i < srtp.len() + srtcp.len() + streams.len() {
            assert(targets(m)[i] == streams[i - srtp.len() - srtcp.len()]);
        } else {
            assert(targets(m)[i] == conn[i - srtp.len() - srtcp.len() - streams.len()]);
        }
    }
}

/// The errors that an action of a shutdown carries on with.
pub open spec fn carried<R: Resources>(action: ActionModel<R>) -> Option<Seq<Seq<char>>> {
    match action {
        ActionModel::Close { then: CloseThenModel::SrtpSession { errs }, .. } => Some(errs),
        ActionModel::Close { then: CloseThenModel::SrtcpSession { errs }, .. } => Some(errs),
        ActionModel::Close { then: CloseThenModel::Stream { errs, .. }, .. } => Some(errs),
        ActionModel::Close { then: CloseThenModel::Conn { errs }, .. } => Some(errs),
        _ => None,
    }
}

/// Whether an action of a shutdown goes on with exactly these errors: it carries them, or brings the
/// end with them as one error, each on a line of its own, or with none if there are none.
pub open spec fn goes_on_with<R: Resources>(action: ActionModel<R>, errs: Seq<Seq<char>>) -> bool {
    let ends = |result: Result<(), ErrorModel<R::Failure>>|
        if errs.len() == 0 {
            result is Ok
        } else {
            result is Err && result->Err_0 == ErrorModel::<R::Failure>::Message(joined(errs))
        };
    match action {
        ActionModel::Done { result } => ends(result),
        ActionModel::Notify { then: NotifyThenModel::Finish { result }, .. } => ends(result),
        _ => carried(action) == Some(errs),
    }
}

/// A shutdown begins with no errors. Whatever closing a target comes to, it goes on with the errors
/// so far, and with the text of this one at their end if there was one; only that the connection was
/// closed already is passed over.
pub proof fn law_shutdown_collects_errors<R: Resources>(
    m: TransportModel<R>,
    then: CloseThenModel<R>,
    errs: Seq<Seq<char>>,
    error: Option<Seq<char>>,
    target: CloseTarget<R>,
)
    requires
        carried(ActionModel::Close { target, then }) == Some(errs),
    ensures
        goes_on_with(m.stop().1, Seq::empty()),
        error is None ==> goes_on_with(m.after_closed(then, error).1, errs),
        error matches Some(text) && !(then is Conn && text == "conn is closed"@) ==> goes_on_with(
            m.after_closed(then, error).1,
            errs.push(error->0),
        ),
        error == Some("conn is closed"@) && then is Conn ==> goes_on_with(
            m.after_closed(then, error).1,
            errs,
        ),
{
}

/// One error is reported by its text as it is. Another one after it comes on a line of its own: the
/// text grows by a line feed and the text of that one, and by nothing else.
pub proof fn law_errors_are_reported_line_by_line<F>(errs: Seq<Seq<char>>, text: Seq<char>)
    ensures
        flattened::<F>(Seq::empty()) is Ok,
        flattened::<F>(errs) is Ok <==> errs.len() == 0,
        flattened::<F>(errs.push(text)) == Err::<(), ErrorModel<F>>(
            ErrorModel::Message(
                if errs.len() == 0 {
                    text
                } else {
                    joined(errs) + seq!['\n'] + text
                },
            ),
        ),
        flattened::<F>(errs) matches Err(error) ==> error == ErrorModel::<F>::Message(joined(errs)),
        joined(seq![text]) == text,
        errs.len() > 0 ==> joined(errs.push(text)).len() == joined(errs).len() + 1 + text.len(),
{
    assert(errs.push(text).drop_last() =~= errs);
    assert(errs.push(text).last() == text);
    assert(seq![text].len() == 1);
}

} // verus!
