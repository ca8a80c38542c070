//! The timeout-bounded forward: the one primitive every hop of the
//! pipeline reuses. Send a request onto the next stage's channel, then
//! await the nested reply handle created for it, translating every failure
//! mode into a typed error and best-effort-notifying the original caller.
//!
//! The two halves are separate functions because the nested reply is only
//! resolved once the next stage has run: the runtime enqueues with
//! [`forward_send`], drives the downstream handler, and settles the await
//! with [`forward_await`] when the reply handle comes back or the deadline
//! elapses.

use vstd::prelude::*;

use crate::channel::{StagedChannel, TrySend};
use crate::error::{err_equiv, Error, ErrorKind};
use crate::reply::{resolved_with_err, ReplyHandle, ReplyState};

verus! {

/// The caller was told about the error if it was still listening: a pending
/// reply handle now holds the error; any other handle is untouched (the
/// failed notification is logged by the runtime, never propagated).
pub open spec fn best_effort_notified<V>(
    pre: ReplyState<V>,
    post: ReplyState<V>,
    e: Error,
) -> bool {
    match pre {
        ReplyState::Pending => resolved_with_err(post, e),
        _ => post == pre,
    }
}

/// The error kind a refused send carries: a closed channel is a send
/// failure, a channel still at capacity at the deadline a send timeout.
pub open spec fn send_refusal_kind<R>(c: StagedChannel<R>) -> ErrorKind {
    if c.is_closed() {
        ErrorKind::SendFailure
    } else {
        ErrorKind::SendTimeout
    }
}

/// Hand a request to the next stage before the deadline. If the channel is
/// closed or still at capacity when the deadline elapses, the error is both
/// delivered through the caller's reply handle (best effort) and returned.
///
/// In this model the producer does not observe the queue draining while it
/// waits, so a queue at capacity here is one still at capacity when the
/// deadline elapses.
pub fn forward_send<R, V>(
    channel: &mut StagedChannel<R>,
    request: R,
    caller: &mut ReplyHandle<V>,
) -> (res: Result<(), Error>)
    requires
        old(channel).wf(),
    ensures
        final(channel).wf(),
        final(channel).cap() == old(channel).cap(),
        final(channel).is_closed() == old(channel).is_closed(),
        (res matches Ok(_)) <==> (!old(channel).is_closed() && old(channel)@.len() < old(
            channel,
        ).cap()),
        res matches Ok(_) ==> final(channel)@ == old(channel)@.push(request) && final(caller)@
            == old(caller)@,
        res matches Err(e) ==> final(channel)@ == old(channel)@ && best_effort_notified(
            old(caller)@,
            final(caller)@,
            e,
        ) && (if old(channel).is_closed() {
            e.kind == ErrorKind::SendFailure && e.message@
                == "failed to send request: channel is closed"@
        } else {
            e.kind == ErrorKind::SendTimeout && e.message@
                == "timed out sending request: channel is full"@
        }),
{
    match channel.try_send(request) {
        TrySend::Accepted => Ok(()),
        TrySend::Closed(_) => {
            let e = Error::new(
                ErrorKind::SendFailure,
                "failed to send request: channel is closed".to_owned(),
            );
            let _ = caller.resolve(Err(e.clone()));
            Err(e)
        },
        TrySend::Congested(_) => {
            let e = Error::new(
                ErrorKind::SendTimeout,
                "timed out sending request: channel is full".to_owned(),
            );
            let _ = caller.resolve(Err(e.clone()));
            Err(e)
        },
    }
}

/// Settle the await of a nested reply handle, bounded by the deadline. A
/// success payload is returned untouched. A failure the downstream handler
/// reported is forwarded to the caller's reply handle and returned with
/// kind and message unchanged — error identity from the deepest stage is
/// preserved end-to-end, never re-wrapped. A timeout or a vanished
/// downstream sender becomes a typed receive error, likewise forwarded and
/// returned.
pub fn forward_await<V, W>(
    nested: &mut ReplyHandle<V>,
    deadline_elapsed: bool,
    caller: &mut ReplyHandle<W>,
) -> (res: Result<V, Error>)
    requires
        old(nested)@ matches ReplyState::Pending ==> deadline_elapsed,
        !(old(nested)@ matches ReplyState::Taken),
        !(old(nested)@ matches ReplyState::ReceiverGone),
    ensures
        (res matches Ok(_)) <==> (old(nested)@ matches ReplyState::Resolved(r) && r matches Ok(_)),
        res matches Ok(v) ==> old(nested)@ == ReplyState::<V>::Resolved(Ok(v)) && final(caller)@
            == old(caller)@,
        res matches Err(e) ==> best_effort_notified(old(caller)@, final(caller)@, e) && (match old(
            nested,
        )@ {
            ReplyState::Resolved(r0) => r0 matches Err(e0) && err_equiv(e, e0),
            ReplyState::SenderGone => e.kind == ErrorKind::ReceiveFailure,
            ReplyState::Pending => e.kind == ErrorKind::ReceiveTimeout,
            _ => false,
        }),
        final(nested)@ == (if (old(nested)@ matches ReplyState::Pending) {
            ReplyState::<V>::ReceiverGone
        } else {
            ReplyState::<V>::Taken
        }),
{
    let r = nested.await_result(deadline_elapsed);
    match r {
        Ok(v) => Ok(v),
        Err(e) => {
            let _ = caller.resolve(Err(e.clone()));
            Err(e)
        },
    }
}

/// Error fidelity: an error a downstream handler reported, once placed in
/// a caller's reply handle (possibly as a clone), is received by that
/// caller with kind and message unchanged — intermediate hops neither
/// re-wrap nor reword it.
pub proof fn lemma_error_fidelity<V>(
    reported: Error,
    stored: Error,
    deadline_elapsed: bool,
    post: ReplyState<V>,
    r: Result<V, Error>,
)
    requires
        err_equiv(stored, reported),
        crate::reply::await_rel(
            ReplyState::<V>::Resolved(Err(stored)),
            deadline_elapsed,
            post,
            r,
        ),
    ensures
        r matches Err(received) && err_equiv(received, reported),
{
}

} // verus!
