//! The invitation-code business executor: draw a fresh random code,
//! forward its insert to the storage stage, and answer the caller with
//! the code once the insert is acknowledged.

use vstd::prelude::*;

use crate::channel::{can_accept, StagedChannel};
use crate::error::{err_equiv, Error, ErrorKind};
use crate::forward::{forward_await, forward_send};
use crate::logic_request::{InvitationCodeAction, LogicRequest};
use crate::reply::{resolved_with_err, ReplyHandle, ReplyState};
use crate::storage_request::InvitationCodeAction as StorageInvitationCodeAction;
use crate::storage_request::StorageRequest;

verus! {

/// Relies on uuid's `Uuid::new_v4` rendered through its `Display` form:
/// a freshly drawn random identifier in the hyphenated format, which is
/// always 36 characters long. The value itself is random, so nothing
/// more is assumed of it.
#[verifier::external_body]
pub(crate) fn generate_invitation_code() -> (code: String)
    ensures
        code@.len() == 36,
{
    uuid::Uuid::new_v4().to_string()
}

/// Exactly one new request stands at the back of the queue: the insert of
/// an invitation-code document carrying the drawn code and the given
/// fields, with a fresh reply handle.
pub open spec fn sent_invitation_code_request(
    pre: Seq<StorageRequest>,
    post: Seq<StorageRequest>,
    code: Seq<char>,
    org_id: String,
    permissions: Vec<String>,
    roles: Vec<String>,
) -> bool {
    post.len() == pre.len() + 1 && post.subrange(0, pre.len() as int) == pre && (post.last()
        matches StorageRequest::InvitationCode(a) && a matches Some(ia) && ia matches StorageInvitationCodeAction::Create {
        code: c,
        org_id: o,
        permissions: p,
        roles: r,
        replier,
    } && c@ == code && o == org_id && p == permissions && r == roles && replier@
        matches ReplyState::Pending)
}

/// Where an invitation-code saga stands. The drawn code travels with the
/// phase: it is what the caller finally receives, and it equals the code
/// inside the stored document.
pub enum InvitationSagaPhase {
    /// The invitation-code insert is on the storage queue; its
    /// acknowledgement is awaited.
    AwaitingInsert { code: String, caller: ReplyHandle<String> },
    /// The saga is over; the caller's handle holds its answer, and the
    /// outcome is what the executor reports upward for logging.
    Finished { caller: ReplyHandle<String>, outcome: Result<(), Error> },
}

/// The invitation-code business executor's entry: unwrap the action from
/// the logic request and start the saga. A request of another variant or
/// one delivered without its action is a programming defect the executor
/// itself reports; no reply handle exists in that case.
pub fn create_invitation_code(request: LogicRequest, storage: &mut StagedChannel<StorageRequest>)
    -> (res: Result<InvitationSagaPhase, Error>)
    requires
        old(storage).wf(),
        match request {
            LogicRequest::InvitationCode(a) => match a {
                Some(ia) => match ia {
                    InvitationCodeAction::Create { replier, .. } => replier@
                        matches ReplyState::Pending,
                },
                None => true,
            },
            _ => true,
        },
    ensures
        final(storage).wf(),
        final(storage).cap() == old(storage).cap(),
        final(storage).is_closed() == old(storage).is_closed(),
        match request {
            LogicRequest::InvitationCode(a) => match a {
                Some(ia) => match ia {
                    InvitationCodeAction::Create { org_id, permissions, roles, replier } => res
                        matches Ok(phase) && invitation_saga_started(
                        *old(storage),
                        *final(storage),
                        org_id,
                        permissions,
                        roles,
                        phase,
                    ),
                },
                None => final(storage)@ == old(storage)@ && (res matches Err(e) && e.kind
                    == ErrorKind::HandlerReportedFailure && e.message@
                    == "received no invitation code action"@),
            },
            _ => final(storage)@ == old(storage)@ && (res matches Err(e) && e.kind
                == ErrorKind::HandlerReportedFailure && e.message@
                == "received an unexpected logic request"@),
        },
{
    match request {
        LogicRequest::InvitationCode(action) => match action {
            Some(action) => match action {
                InvitationCodeAction::Create { org_id, permissions, roles, replier } => Ok(
                    handle_create_invitation_code(org_id, permissions, roles, replier, storage),
                ),
            },
            None => Err(
                Error::new(
                    ErrorKind::HandlerReportedFailure,
                    "received no invitation code action".to_owned(),
                ),
            ),
        },
        _ => Err(
            Error::new(
                ErrorKind::HandlerReportedFailure,
                "received an unexpected logic request".to_owned(),
            ),
        ),
    }
}

/// What starting the invitation-code saga does: a fresh 36-character code
/// is drawn and its insert put on the storage queue, the same code kept
/// for the final answer — unless the queue refuses, which fails the
/// caller with the send error.
pub open spec fn invitation_saga_started(
    pre: StagedChannel<StorageRequest>,
    post: StagedChannel<StorageRequest>,
    org_id: String,
    permissions: Vec<String>,
    roles: Vec<String>,
    phase: InvitationSagaPhase,
) -> bool {
    if can_accept(pre) {
        phase matches InvitationSagaPhase::AwaitingInsert { code, caller }
            && sent_invitation_code_request(pre@, post@, code@, org_id, permissions, roles)
            && code@.len() == 36 && caller@ matches ReplyState::Pending
    } else {
        post@ == pre@ && (phase matches InvitationSagaPhase::Finished { caller, outcome }
            && outcome matches Err(e) && e.kind == crate::forward::send_refusal_kind(pre)
            && resolved_with_err(caller@, e))
    }
}

/// Start the saga for one invitation-code action: draw the code and
/// forward its insert to the storage stage.
pub fn handle_create_invitation_code(
    org_id: String,
    permissions: Vec<String>,
    roles: Vec<String>,
    caller: ReplyHandle<String>,
    storage: &mut StagedChannel<StorageRequest>,
) -> (res: InvitationSagaPhase)
    requires
        old(storage).wf(),
        caller@ matches ReplyState::Pending,
    ensures
        final(storage).wf(),
        final(storage).cap() == old(storage).cap(),
        final(storage).is_closed() == old(storage).is_closed(),
        invitation_saga_started(
            *old(storage),
            *final(storage),
            org_id,
            permissions,
            roles,
            res,
        ),
{
    let mut caller = caller;
    let code = generate_invitation_code();
    let stored_code = code.clone();
    let replier = ReplyHandle::<String>::create();
    let request = StorageRequest::InvitationCode(
        Some(
            StorageInvitationCodeAction::Create {
                code: stored_code,
                org_id,
                permissions,
                roles,
                replier,
            },
        ),
    );
    match forward_send(storage, request, &mut caller) {
        Err(e) => InvitationSagaPhase::Finished { caller, outcome: Err(e) },
        Ok(_) => {
            proof {
                assert(storage@.subrange(0, old(storage)@.len() as int) =~= old(storage)@);
            }
            InvitationSagaPhase::AwaitingInsert { code, caller }
        },
    }
}

/// Take the insert's acknowledgement and finish the saga. On success the
/// caller receives the drawn code — the same code the stored document
/// carries. On failure the caller receives the storage stage's own error,
/// kind and message unchanged.
pub fn on_invitation_code_reply(
    code: String,
    caller: ReplyHandle<String>,
    insert_reply: ReplyHandle<String>,
    deadline_elapsed: bool,
) -> (res: InvitationSagaPhase)
    requires
        caller@ matches ReplyState::Pending,
        insert_reply@ matches ReplyState::Pending ==> deadline_elapsed,
        !(insert_reply@ matches ReplyState::Taken),
        !(insert_reply@ matches ReplyState::ReceiverGone),
    ensures
        match insert_reply@ {
            ReplyState::Resolved(r) => match r {
                Ok(_) => res matches InvitationSagaPhase::Finished { caller: c, outcome }
                    && outcome matches Ok(_) && c@ == ReplyState::<String>::Resolved(Ok(code)),
                Err(e0) => res matches InvitationSagaPhase::Finished { caller: c, outcome }
                    && outcome matches Err(e) && err_equiv(e, e0) && resolved_with_err(c@, e),
            },
            ReplyState::SenderGone => res matches InvitationSagaPhase::Finished {
                caller: c,
                outcome,
            } && outcome matches Err(e) && e.kind == ErrorKind::ReceiveFailure
                && resolved_with_err(c@, e),
            ReplyState::Pending => res matches InvitationSagaPhase::Finished { caller: c, outcome }
                && outcome matches Err(e) && e.kind == ErrorKind::ReceiveTimeout
                && resolved_with_err(c@, e),
            _ => false,
        },
{
    let mut caller = caller;
    let mut insert_reply = insert_reply;
    match forward_await(&mut insert_reply, deadline_elapsed, &mut caller) {
        Err(e) => InvitationSagaPhase::Finished { caller, outcome: Err(e) },
        Ok(_) => {
            let _ = caller.resolve(Ok(code));
            InvitationSagaPhase::Finished { caller, outcome: Ok(()) }
        },
    }
}

} // verus!
