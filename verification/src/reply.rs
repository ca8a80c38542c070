//! The reply handle: a single-use correlation channel that carries exactly
//! one result (success value or typed error) back to whoever created it.
//!
//! The live system realizes a reply handle as a oneshot channel whose sender
//! half is moved into the action and whose receiver half is awaited exactly
//! once. Here the whole channel is one value whose state records where it
//! stands in that protocol; the surrounding runtime moves the value between
//! the two parties and reports the only outside event the protocol depends
//! on — whether the await's deadline elapsed before an answer arrived.

use vstd::prelude::*;

use crate::error::{err_equiv, Error, ErrorKind};

verus! {

/// Where a reply handle stands in its single-use protocol.
pub enum ReplyState<V> {
    /// Created; nothing sent yet, receiver still waiting.
    Pending,
    /// The sender delivered exactly one result, not yet taken by the receiver.
    Resolved(Result<V, Error>),
    /// The receiver took the single result; the handle is spent.
    Taken,
    /// The sender was discarded without resolving: the handler vanished.
    SenderGone,
    /// The receiver gave up (its deadline elapsed); late results are discarded.
    ReceiverGone,
}

/// A single-use reply channel, both halves folded into one value.
pub struct ReplyHandle<V> {
    state: ReplyState<V>,
}

impl<V> View for ReplyHandle<V> {
    type V = ReplyState<V>;

    closed spec fn view(&self) -> ReplyState<V> {
        self.state
    }
}

/// What resolving does to a reply handle: a pending handle accepts the
/// result and reports success; any other handle is left untouched and the
/// attempt reports failure, never a crash.
pub open spec fn spec_resolve<V>(s: ReplyState<V>, r: Result<V, Error>) -> (ReplyState<V>, bool) {
    match s {
        ReplyState::Pending => (ReplyState::Resolved(r), true),
        _ => (s, false),
    }
}

/// The state holds an error with the same kind and message as `e`.
pub open spec fn resolved_with_err<V>(s: ReplyState<V>, e: Error) -> bool {
    match s {
        ReplyState::Resolved(r) => r matches Err(e2) && err_equiv(e2, e),
        _ => false,
    }
}

/// How one bounded await ends: given the state the handle is in when the
/// await returns and whether the deadline elapsed, which result the waiting
/// caller receives and which state the handle is left in.
pub open spec fn await_rel<V>(
    pre: ReplyState<V>,
    deadline_elapsed: bool,
    post: ReplyState<V>,
    r: Result<V, Error>,
) -> bool {
    match pre {
        ReplyState::Resolved(v) => post == ReplyState::<V>::Taken && r == v,
        ReplyState::SenderGone => post == ReplyState::<V>::Taken
            && (r matches Err(e) && e.kind == ErrorKind::ReceiveFailure
                && e.message@ == "reply sender vanished without answering"@),
        ReplyState::Pending => deadline_elapsed && post == ReplyState::<V>::ReceiverGone
            && (r matches Err(e) && e.kind == ErrorKind::ReceiveTimeout
                && e.message@ == "timed out awaiting reply"@),
        _ => false,
    }
}

impl<V> ReplyHandle<V> {
    /// A fresh handle: nothing sent, receiver waiting.
    pub fn create() -> (h: ReplyHandle<V>)
        ensures
            h@ == ReplyState::<V>::Pending,
    {
        ReplyHandle { state: ReplyState::Pending }
    }

    /// Whether the handle still awaits its single result.
    pub fn is_pending(&self) -> (b: bool)
        ensures
            b == (self@ matches ReplyState::Pending),
    {
        matches!(self.state, ReplyState::Pending)
    }

    /// Deliver the single result. Returns whether delivery took place: a
    /// handle that was already resolved, spent, or whose receiver gave up
    /// reports failure and is left untouched — it never panics, so a caller
    /// can log the failed notification and continue.
    pub fn resolve(&mut self, r: Result<V, Error>) -> (ok: bool)
        ensures
            (final(self)@, ok) == spec_resolve(old(self)@, r),
    {
        match self.state {
            ReplyState::Pending => {
                self.state = ReplyState::Resolved(r);
                true
            },
            _ => false,
        }
    }

    /// The sender half was discarded without answering.
    pub fn drop_sender(&mut self)
        requires
            old(self)@ matches ReplyState::Pending,
        ensures
            final(self)@ == ReplyState::<V>::SenderGone,
    {
        self.state = ReplyState::SenderGone;
    }

    /// End the single await. The runtime calls this when the await returns:
    /// either a result arrived, or the sender vanished, or — only with
    /// `deadline_elapsed` — the deadline ran out first. The caller always
    /// gets a definite answer: the delivered result, a receive-failure
    /// error, or a receive-timeout error.
    pub fn await_result(&mut self, deadline_elapsed: bool) -> (r: Result<V, Error>)
        requires
            old(self)@ matches ReplyState::Pending ==> deadline_elapsed,
            !(old(self)@ matches ReplyState::Taken),
            !(old(self)@ matches ReplyState::ReceiverGone),
        ensures
            await_rel(old(self)@, deadline_elapsed, final(self)@, r),
    {
        let mut prior = ReplyState::Taken;
        core::mem::swap(&mut self.state, &mut prior);
        match prior {
            ReplyState::Resolved(v) => v,
            ReplyState::SenderGone => Err(Error::new(
                ErrorKind::ReceiveFailure,
                "reply sender vanished without answering".to_owned(),
            )),
            _ => {
                self.state = ReplyState::ReceiverGone;
                Err(Error::new(ErrorKind::ReceiveTimeout, "timed out awaiting reply".to_owned()))
            },
        }
    }
}

/// At-most-once reply: once a resolution succeeds, the handle keeps that
/// first result forever — a second attempt reports failure and changes
/// nothing. (That the second attempt cannot panic is part of `resolve`'s
/// contract: it is a total verified function.)
pub proof fn lemma_at_most_once_reply<V>(
    s0: ReplyState<V>,
    r1: Result<V, Error>,
    r2: Result<V, Error>,
)
    ensures
        ({
            let (s1, ok1) = spec_resolve(s0, r1);
            let (s2, ok2) = spec_resolve(s1, r2);
            ok1 ==> (!ok2 && s2 == s1 && s1 == ReplyState::<V>::Resolved(r1))
        }),
{
}

/// Deadline honored: an await that ends once its deadline has elapsed ends
/// with a definite answer, whatever the downstream handler did — the
/// delivered result if one arrived, a receive-failure error if the handler
/// vanished, and exactly a receive-timeout error if it never answered.
/// (`await_result`'s contract admits every live state once the deadline
/// has elapsed, so no caller is left waiting past it.)
pub proof fn lemma_deadline_honored<V>(pre: ReplyState<V>, post: ReplyState<V>, r: Result<
    V,
    Error,
>)
    requires
        await_rel(pre, true, post, r),
    ensures
        pre matches ReplyState::Pending ==> (r matches Err(e) && e.kind
            == ErrorKind::ReceiveTimeout),
        pre matches ReplyState::Resolved(v) ==> r == v,
        pre matches ReplyState::SenderGone ==> (r matches Err(e) && e.kind
            == ErrorKind::ReceiveFailure),
{
}

} // verus!
