//! How a whole shutdown ends, given what closing each target comes to.
use crate::action::{ActionModel, CloseTarget, CloseThenModel};
use crate::dtls_parameters::DTLSParameters;
use crate::dtls_transport_state::DTLSTransportState;
use crate::error::{flattened, ErrorModel};
use crate::ice::ICETransportState;
use crate::laws::negotiation::{law_refused_start_changes_nothing, start_outcome, told, Replies};
use crate::model::{noted, TransportModel};
use crate::outside::conn_closed_text;
use crate::resources::Resources;
use std::sync::Arc;
use vstd::prelude::*;

verus! {

/// How a shutdown ended.
#[verifier::ext_equal]
pub struct Shutdown<R: Resources> {
    pub transport: TransportModel<R>,
    pub result: Option<Result<(), ErrorModel<R::Failure>>>,
    /// What was closed, in order.
    pub closed: Seq<CloseTarget<R>>,
    /// What handlers were fired with, in order.
    pub fired: Seq<(Arc<R::Handler>, DTLSTransportState)>,
}

/// The end of a shutdown that has come to `action`, when closing the targets comes to `replies`, one
/// after the other: nothing, or the text of an error.
pub open spec fn run_stop<R: Resources>(
    m: TransportModel<R>,
    action: ActionModel<R>,
    replies: Seq<Option<Seq<char>>>,
) -> Shutdown<R>
    decreases replies.len(),
{
    match action {
        ActionModel::Close { target, then } => if replies.len() == 0 {
            Shutdown { transport: m, result: None, closed: Seq::empty(), fired: Seq::empty() }
        } else {
            let (next, action) = m.after_closed(then, replies[0]);
            let rest = run_stop(next, action, replies.drop_first());
            Shutdown { closed: seq![target] + rest.closed, ..rest }
        },
        ActionModel::Notify { handler, state, then } => Shutdown {
            transport: m.after_notified(then).0,
            result: match m.after_notified(then).1 {
                ActionModel::Done { result } => Some(result),
                _ => None,
            },
            closed: Seq::empty(),
            fired: seq![(handler, state)],
        },
        ActionModel::Done { result } => Shutdown {
            transport: m,
            result: Some(result),
            closed: Seq::empty(),
            fired: Seq::empty(),
        },
        _ => Shutdown {
            transport: m,
            result: None,
            closed: Seq::empty(),
            fired: Seq::empty(),
        },
    }
}

/// The outcome of a whole shutdown.
pub open spec fn stop_outcome<R: Resources>(
    m: TransportModel<R>,
    replies: Seq<Option<Seq<char>>>,
) -> Shutdown<R> {
    run_stop(m.stop().0, m.stop().1, replies)
}

/// The target that a session is, if there is one.
pub open spec fn session_target<R: Resources>(session: Option<Arc<R::Session>>) -> Seq<
    CloseTarget<R>,
> {
    match session {
        Some(session) => seq![CloseTarget::Session(session)],
        None => Seq::empty(),
    }
}

/// The target that the connection is, if there is one.
pub open spec fn conn_target<R: Resources>(conn: Option<Arc<R::Conn>>) -> Seq<CloseTarget<R>> {
    match conn {
        Some(conn) => seq![CloseTarget::Conn(conn)],
        None => Seq::empty(),
    }
}

/// The targets that streams are.
pub open spec fn stream_targets<R: Resources>(streams: Seq<Arc<R::Stream>>) -> Seq<CloseTarget<R>> {
    streams.map_values(|stream: Arc<R::Stream>| CloseTarget::<R>::Stream(stream))
}

/// Everything that a transport has to close: its SRTP session, its SRTCP session, its streams in the
/// order in which they were stored, and its connection.
pub open spec fn targets<R: Resources>(m: TransportModel<R>) -> Seq<CloseTarget<R>> {
    session_target(m.srtp_session) + session_target(m.srtcp_session) + stream_targets(
        m.simulcast_streams,
    ) + conn_target(m.conn)
}

/// Whether what closing a target came to is an error to report. That the connection was closed
/// already is none.
pub open spec fn is_reported<R: Resources>(
    target: CloseTarget<R>,
    reply: Option<Seq<char>>,
) -> bool {
    reply is Some && !(target is Conn && reply == Some(conn_closed_text()))
}

/// The texts of the errors to report, in the order of the targets.
pub open spec fn reported<R: Resources>(
    targets: Seq<CloseTarget<R>>,
    replies: Seq<Option<Seq<char>>>,
) -> Seq<Seq<char>>
    decreases targets.len(),
{
    if targets.len() == 0 {
        Seq::empty()
    } else if is_reported(targets[0], replies[0]) {
        seq![replies[0]->0] + reported(targets.drop_first(), replies.drop_first())
    } else {
        reported(targets.drop_first(), replies.drop_first())
    }
}

/// Whether a shutdown that has noted `errs` closes `rest`, and then ends as it should.
spec fn ends_closing<R: Resources>(
    m: TransportModel<R>,
    shutdown: Shutdown<R>,
    rest: Seq<CloseTarget<R>>,
    errs: Seq<Seq<char>>,
    replies: Seq<Option<Seq<char>>>,
) -> bool {
    &&& shutdown.closed =~= rest
    &&& shutdown.result == Some(flattened::<R::Failure>(errs + reported(rest, replies)))
    &&& shutdown.transport == (TransportModel {
        state: DTLSTransportState::Closed,
        srtp_session: None,
        srtcp_session: None,
        ..m
    })
    &&& shutdown.fired =~= told(m, seq![DTLSTransportState::Closed])
}

/// Closing one more target, and then ending as it should, is ending as it should.
proof fn lemma_one_more<R: Resources>(
    m: TransportModel<R>,
    shutdown: Shutdown<R>,
    rest: Shutdown<R>,
    target: CloseTarget<R>,
    more: Seq<CloseTarget<R>>,
    errs: Seq<Seq<char>>,
    replies: Seq<Option<Seq<char>>>,
)
    requires
        replies.len() > 0,
        shutdown == (Shutdown { closed: seq![target] + rest.closed, ..rest }),
        ends_closing(
            m,
            rest,
            more,
            if is_reported(target, replies[0]) {
                errs.push(replies[0]->0)
            } else {
                errs
            },
            replies.drop_first(),
        ),
    ensures
        ends_closing(m, shutdown, seq![target] + more, errs, replies),
{
    let all = seq![target] + more;
    assert(all.drop_first() =~= more);
    assert(all[0] == target);
    let tail = reported(more, replies.drop_first());
    if is_reported(target, replies[0]) {
        assert(errs.push(replies[0]->0) + tail =~= errs + (seq![replies[0]->0] + tail));
    }
}

/// The end of a shutdown.
proof fn lemma_stop_end<R: Resources>(m: TransportModel<R>, errs: Seq<Seq<char>>)
    requires
        m.srtp_session is None,
        m.srtcp_session is None,
    ensures
        ends_closing(
            m,
            run_stop(m.stop_end(errs).0, m.stop_end(errs).1, Seq::empty()),
            Seq::empty(),
            errs,
            Seq::empty(),
        ),
{
    assert(errs + Seq::<Seq<char>>::empty() =~= errs);
}

/// A shutdown from the connection on.
proof fn lemma_stop_conn<R: Resources>(
    m: TransportModel<R>,
    errs: Seq<Seq<char>>,
    replies: Seq<Option<Seq<char>>>,
)
    requires
        m.srtp_session is None,
        m.srtcp_session is None,
        replies.len() == conn_target::<R>(m.conn).len(),
    ensures
        ends_closing(
            m,
            run_stop(m.stop_conn(errs).0, m.stop_conn(errs).1, replies),
            conn_target(m.conn),
            errs,
            replies,
        ),
{
    match m.conn {
        Some(conn) => {
            let target = CloseTarget::<R>::Conn(conn);
            let errs_then = if is_reported(target, replies[0]) {
                errs.push(replies[0]->0)
            } else {
                errs
            };
            lemma_stop_end(m, errs_then);
            assert(replies.drop_first() =~= Seq::empty());
            let (next, action) = m.after_closed(CloseThenModel::Conn { errs }, replies[0]);
            let rest = run_stop(next, action, replies.drop_first());
            lemma_one_more(
                m,
                run_stop(m.stop_conn(errs).0, m.stop_conn(errs).1, replies),
                rest,
                target,
                Seq::empty(),
                errs,
                replies,
            );
            assert(seq![target] + Seq::<CloseTarget<R>>::empty() =~= conn_target(m.conn));
        },
        None => {
            assert(replies =~= Seq::empty());
            lemma_stop_end(m, errs);
        },
    }
}

/// A shutdown from some stream on.
proof fn lemma_stop_streams<R: Resources>(
    m: TransportModel<R>,
    streams: Seq<Arc<R::Stream>>,
    errs: Seq<Seq<char>>,
    replies: Seq<Option<Seq<char>>>,
)
    requires
        m.srtp_session is None,
        m.srtcp_session is None,
        replies.len() == streams.len() + conn_target::<R>(m.conn).len(),
    ensures
        ends_closing(
            m,
            run_stop(m.stop_streams(streams, errs).0, m.stop_streams(streams, errs).1, replies),
            stream_targets::<R>(streams) + conn_target(m.conn),
            errs,
            replies,
        ),
    decreases streams.len(),
{
    let (now, close) = m.stop_streams(streams, errs);
    if streams.len() > 0 {
        let target = CloseTarget::<R>::Stream(streams[0]);
        let rest = streams.remove(0);
        lemma_stop_streams(m, rest, noted(errs, replies[0]), replies.drop_first());
        let (next, action) = m.after_closed(CloseThenModel::Stream { rest, errs }, replies[0]);
        let more = stream_targets::<R>(rest) + conn_target(m.conn);
        lemma_one_more(
            m,
            run_stop(now, close, replies),
            run_stop(next, action, replies.drop_first()),
            target,
            more,
            errs,
            replies,
        );
        assert(seq![target] + more =~= stream_targets::<R>(streams) + conn_target(m.conn));
    } else {
        lemma_stop_conn(m, errs, replies);
        assert(stream_targets::<R>(streams) + conn_target(m.conn) =~= conn_target(m.conn));
    }
}

/// A shutdown from the session for RTCP on.
proof fn lemma_stop_srtcp<R: Resources>(
    m: TransportModel<R>,
    errs: Seq<Seq<char>>,
    replies: Seq<Option<Seq<char>>>,
)
    requires
        m.srtp_session is None,
        replies.len() == targets(m).len(),
    ensures
        ends_closing(
            m,
            run_stop(m.stop_srtcp(errs).0, m.stop_srtcp(errs).1, replies),
            targets(m),
            errs,
            replies,
        ),
{
    let (now, close) = m.stop_srtcp(errs);
    let more = stream_targets::<R>(m.simulcast_streams) + conn_target(m.conn);
    match m.srtcp_session {
        Some(session) => {
            let target = CloseTarget::<R>::Session(session);
            lemma_stop_streams(
                now,
                m.simulcast_streams,
                noted(errs, replies[0]),
                replies.drop_first(),
            );
            let (next, action) = now.after_closed(
                CloseThenModel::SrtcpSession { errs },
                replies[0],
            );
            lemma_one_more(
                now,
                run_stop(now, close, replies),
                run_stop(next, action, replies.drop_first()),
                target,
                more,
                errs,
                replies,
            );
            assert(seq![target] + more =~= targets(m));
        },
        None => {
            lemma_stop_streams(m, m.simulcast_streams, errs, replies);
            assert(more =~= targets(m));
        },
    }
}

/// A shutdown closes everything that there is to close, each once and in order, whatever comes of it.
/// It then leaves the transport closed, without its sessions and otherwise as it was, has the handler
/// told, and reports the texts of all errors in one, or none if there was none.
pub proof fn law_stop_closes_everything<R: Resources>(
    m: TransportModel<R>,
    replies: Seq<Option<Seq<char>>>,
)
    requires
        replies.len() == targets(m).len(),
    ensures
        ({
            let shutdown = stop_outcome(m, replies);
            &&& shutdown.closed == targets(m)
            &&& shutdown.result == Some(flattened::<R::Failure>(reported(targets(m), replies)))
            &&& shutdown.transport == (TransportModel {
                state: DTLSTransportState::Closed,
                srtp_session: None,
                srtcp_session: None,
                ..m
            })
            &&& shutdown.fired == told(m, seq![DTLSTransportState::Closed])
        }),
{
    let (now, close) = m.stop();
    let errs = Seq::<Seq<char>>::empty();
    match m.srtp_session {
        Some(session) => {
            let target = CloseTarget::<R>::Session(session);
            lemma_stop_srtcp(now, noted(errs, replies[0]), replies.drop_first());
            let (next, action) = now.after_closed(
                CloseThenModel::SrtpSession { errs },
                replies[0],
            );
            lemma_one_more(
                now,
                run_stop(now, close, replies),
                run_stop(next, action, replies.drop_first()),
                target,
                targets(now),
                errs,
                replies,
            );
            assert(seq![target] + targets(now) =~= targets(m));
        },
        None => {
            lemma_stop_srtcp(m, errs, replies);
        },
    }
    assert(errs + reported(targets(m), replies) =~= reported(targets(m), replies));
}

/// There is nothing to report exactly if no reply is an error to report.
proof fn lemma_nothing_reported<R: Resources>(
    targets: Seq<CloseTarget<R>>,
    replies: Seq<Option<Seq<char>>>,
)
    requires
        replies.len() == targets.len(),
    ensures
        reported(targets, replies).len() == 0 <==> forall|i: int|
            0 <= i < targets.len() ==> !is_reported(#[trigger] targets[i], replies[i]),
    decreases targets.len(),
{
    if targets.len() > 0 {
        let (more, rest) = (targets.drop_first(), replies.drop_first());
        lemma_nothing_reported(more, rest);
        assert forall|i: int| 0 <= i < more.len() implies more[i] == targets[i + 1] && rest[i]
            == replies[i + 1] by {}
        if reported(targets, replies).len() == 0 {
            assert forall|i: int| 0 <= i < targets.len() implies !is_reported(
                #[trigger] targets[i],
                replies[i],
            ) by {
                if i > 0 {
                    assert(!is_reported(more[i - 1], rest[i - 1]));
                }
            }
        }
        if forall|i: int|
            0 <= i < targets.len() ==> !is_reported(#[trigger] targets[i], replies[i]) {
            assert forall|i: int| 0 <= i < more.len() implies !is_reported(
                #[trigger] more[i],
                rest[i],
            ) by {
                assert(!is_reported(targets[i + 1], replies[i + 1]));
            }
            assert(!is_reported(targets[0], replies[0]));
        }
    }
}

/// A shutdown ends without an error exactly if everything could be closed, except that the DTLS
/// connection may have been closed already.
pub proof fn law_stop_succeeds_exactly<R: Resources>(
    m: TransportModel<R>,
    replies: Seq<Option<Seq<char>>>,
)
    requires
        replies.len() == targets(m).len(),
    ensures
        stop_outcome(m, replies).result is Some,
        stop_outcome(m, replies).result->0 is Ok <==> forall|i: int|
            0 <= i < replies.len() ==> {
                ||| #[trigger] replies[i] is None
                ||| targets(m)[i] is Conn && replies[i] == Some(conn_closed_text())
            },
{
    law_stop_closes_everything(m, replies);
    lemma_nothing_reported(targets(m), replies);
    if stop_outcome(m, replies).result->0 is Ok {
        assert forall|i: int| 0 <= i < replies.len() implies ({
            ||| #[trigger] replies[i] is None
            ||| targets(m)[i] is Conn && replies[i] == Some(conn_closed_text())
        }) by {
            assert(!is_reported(targets(m)[i], replies[i]));
        }
    }
}

/// A second shutdown closes no session again: only the streams and the connection are left to close.
pub proof fn law_second_stop_closes_no_session<R: Resources>(
    m: TransportModel<R>,
    first: Seq<Option<Seq<char>>>,
    second: Seq<Option<Seq<char>>>,
)
    requires
        first.len() == targets(m).len(),
        second.len() == m.simulcast_streams.len() + conn_target::<R>(m.conn).len(),
    ensures
        ({
            let stopped = stop_outcome(m, first).transport;
            let again = stop_outcome(stopped, second);
            &&& again.closed == stream_targets::<R>(m.simulcast_streams) + conn_target(m.conn)
            &&& again.transport == stopped
        }),
{
    law_stop_closes_everything(m, first);
    let stopped = stop_outcome(m, first).transport;
    assert(targets(stopped) =~= stream_targets::<R>(m.simulcast_streams) + conn_target(m.conn));
    law_stop_closes_everything(stopped, second);
}

/// A transport that was stopped has no session left and cannot be negotiated: any negotiation that has
/// an endpoint, over an ICE transport that has started, is refused.
pub proof fn law_stopped_transport_cannot_start<R: Resources>(
    m: TransportModel<R>,
    closing: Seq<Option<Seq<char>>>,
    remote_parameters: DTLSParameters,
    replies: Replies<R>,
)
    requires
        closing.len() == targets(m).len(),
        replies.dtls_endpoint is Some,
        replies.ice_state != ICETransportState::New,
    ensures
        ({
            let stopped = stop_outcome(m, closing).transport;
            let outcome = start_outcome(stopped, remote_parameters, replies);
            &&& stopped.srtp_session is None
            &&& stopped.srtcp_session is None
            &&& outcome.ends_with(ErrorModel::ErrInvalidDTLSStart)
            &&& outcome.transport == stopped
        }),
{
    law_stop_closes_everything(m, closing);
    let stopped = stop_outcome(m, closing).transport;
    law_refused_start_changes_nothing(stopped, remote_parameters, replies);
}

/// A stream that was stored is closed when the transport stops.
pub proof fn law_stored_stream_is_closed<R: Resources>(
    m: TransportModel<R>,
    stream: Arc<R::Stream>,
    replies: Seq<Option<Seq<char>>>,
)
    requires
        m.simulcast_streams.contains(stream),
        replies.len() == targets(m).len(),
    ensures
        stop_outcome(m, replies).closed.contains(CloseTarget::Stream(stream)),
{
    law_stop_closes_everything(m, replies);
    let i = choose|i: int|
        0 <= i < m.simulcast_streams.len() && m.simulcast_streams[i] == stream;
    let before = session_target(m.srtp_session) + session_target::<R>(m.srtcp_session);
    assert(targets(m)[before.len() + i] == CloseTarget::<R>::Stream(stream));
}

} // verus!
