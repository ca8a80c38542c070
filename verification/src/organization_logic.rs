//! The organization-creation business executor: a saga of three dependent
//! storage calls — resolve the default admin role, insert the
//! organization, insert the creating user's membership — with validation
//! up front and no compensation on partial failure.
//!
//! Each storage call is a timeout-bounded forward: the step that issues it
//! enqueues the request and the saga then waits; the runtime hands the
//! nested reply handle back to the next step once the storage stage has
//! settled it or the deadline has elapsed. Any step failing both notifies
//! the original caller through its reply handle and ends the saga; steps
//! already performed are not undone, so an organization inserted before a
//! failing membership insert stays behind — an accepted, documented
//! inconsistency window.

use vstd::prelude::*;

use crate::address::Address;
use crate::channel::{can_accept, StagedChannel};
use crate::country::{country_code_recognized, is_recognized_country};
use crate::error::{err_equiv, Error, ErrorKind};
use crate::forward::{forward_await, forward_send};
use crate::logic_request::{LogicRequest, OrganizationAction};
use crate::reply::{resolved_with_err, ReplyHandle, ReplyState};
use crate::storage_request::OrganizationAction as StorageOrganizationAction;
use crate::storage_request::{MemberAction, RoleAction, StorageRequest};

verus! {

/// All the rules the input of an organization creation must satisfy:
/// every field non-empty and the country recognized by the reference list.
pub open spec fn valid_create_organization_input(
    country: Seq<char>,
    name: Seq<char>,
    address: Address,
) -> bool {
    country.len() > 0 && name.len() > 0 && address.country@.len() > 0 && address.city@.len() > 0
        && address.street@.len() > 0 && address.number@.len() > 0 && address.postal_code@.len() > 0
        && is_recognized_country(country)
}

/// The message of the first violated validation rule, in the order the
/// rules are checked.
pub open spec fn first_validation_error_message(
    country: Seq<char>,
    name: Seq<char>,
    address: Address,
) -> Seq<char> {
    if country.len() == 0 {
        "country is empty"@
    } else if name.len() == 0 {
        "name is empty"@
    } else if address.country@.len() == 0 {
        "address country is empty"@
    } else if address.city@.len() == 0 {
        "address city is empty"@
    } else if address.street@.len() == 0 {
        "address street is empty"@
    } else if address.number@.len() == 0 {
        "address number is empty"@
    } else if address.postal_code@.len() == 0 {
        "address postal code is empty"@
    } else {
        "invalid country specified"@
    }
}

/// Exactly one new request stands at the back of the queue: the lookup of
/// the default admin role, carrying a fresh reply handle.
pub open spec fn sent_role_request(pre: Seq<StorageRequest>, post: Seq<StorageRequest>) -> bool {
    post.len() == pre.len() + 1 && post.subrange(0, pre.len() as int) == pre && (post.last()
        matches StorageRequest::Role(a) && a matches Some(ra) && ra matches RoleAction::GetAdminRoleId {
        replier,
    } && replier@ matches ReplyState::Pending)
}

/// Exactly one new request stands at the back of the queue: the insert of
/// the organization document built from the given fields, carrying a
/// fresh reply handle.
pub open spec fn sent_organization_request(
    pre: Seq<StorageRequest>,
    post: Seq<StorageRequest>,
    country: String,
    name: String,
    address: Address,
) -> bool {
    post.len() == pre.len() + 1 && post.subrange(0, pre.len() as int) == pre && (post.last()
        matches StorageRequest::Organization(a) && a matches Some(oa) && oa matches StorageOrganizationAction::Create {
        country: c,
        name: n,
        address: ad,
        replier,
    } && c == country && n == name && ad == address && replier@ matches ReplyState::Pending)
}

/// Exactly one new request stands at the back of the queue: the insert of
/// the membership linking the user to the freshly created organization
/// under the resolved admin role, carrying a fresh reply handle.
pub open spec fn sent_member_request(
    pre: Seq<StorageRequest>,
    post: Seq<StorageRequest>,
    user_id: String,
    admin_role_id: String,
    organization_id: Seq<char>,
) -> bool {
    post.len() == pre.len() + 1 && post.subrange(0, pre.len() as int) == pre && (post.last()
        matches StorageRequest::Member(a) && a matches Some(ma) && ma matches MemberAction::Create {
        user_id: u,
        admin_role_id: r,
        organization_id: o,
        replier,
    } && u == user_id && r == admin_role_id && o@ == organization_id && replier@
        matches ReplyState::Pending)
}

/// Where an organization-creation saga stands between storage calls. The
/// caller's reply handle travels with the phase; whatever the saga still
/// needs from the input travels alongside it.
pub enum OrgSagaPhase {
    /// The role lookup is on the storage queue; its answer is awaited.
    AwaitingRole {
        country: String,
        name: String,
        address: Address,
        user_id: String,
        caller: ReplyHandle<String>,
    },
    /// The organization insert is on the storage queue; its answer is awaited.
    AwaitingOrganization { user_id: String, admin_role_id: String, caller: ReplyHandle<String> },
    /// The membership insert is on the storage queue; its answer is awaited.
    AwaitingMember { organization_id: String, caller: ReplyHandle<String> },
    /// The saga is over; the caller's handle holds its answer, and the
    /// outcome is what the executor reports upward for logging.
    Finished { caller: ReplyHandle<String>, outcome: Result<(), Error> },
}

/// The organization business executor's entry: unwrap the organization
/// action from the logic request and start the saga. A request of another
/// variant or one delivered without its action is a programming defect the
/// executor itself reports; no reply handle exists in that case.
pub fn create_organization(request: LogicRequest, storage: &mut StagedChannel<StorageRequest>)
    -> (res: Result<OrgSagaPhase, Error>)
    requires
        old(storage).wf(),
        match request {
            LogicRequest::Organization(a) => match a {
                Some(oa) => match oa {
                    OrganizationAction::Create { replier, .. } => replier@
                        matches ReplyState::Pending,
                },
                None => true,
            },
            _ => true,
        },
    ensures
        final(storage).wf(),
        final(storage).cap() == old(storage).cap(),
        final(storage).is_closed() == old(storage).is_closed(),
        match request {
            LogicRequest::Organization(a) => match a {
                Some(oa) => match oa {
                    OrganizationAction::Create { country, name, address, user_id, replier } => res
                        matches Ok(phase) && saga_started(
                        *old(storage),
                        *final(storage),
                        country,
                        name,
                        address,
                        user_id,
                        phase,
                    ),
                },
                None => final(storage)@ == old(storage)@ && (res matches Err(e) && e.kind
                    == ErrorKind::HandlerReportedFailure && e.message@
                    == "received no organization action"@),
            },
            _ => final(storage)@ == old(storage)@ && (res matches Err(e) && e.kind
                == ErrorKind::HandlerReportedFailure && e.message@
                == "received an unexpected logic request"@),
        },
{
    match request {
        LogicRequest::Organization(action) => match action {
            Some(action) => match action {
                OrganizationAction::Create { country, name, address, user_id, replier } => Ok(
                    handle_create_organization(country, name, address, user_id, replier, storage),
                ),
            },
            None => Err(
                Error::new(
                    ErrorKind::HandlerReportedFailure,
                    "received no organization action".to_owned(),
                ),
            ),
        },
        _ => Err(
            Error::new(
                ErrorKind::HandlerReportedFailure,
                "received an unexpected logic request".to_owned(),
            ),
        ),
    }
}

/// What starting the saga does, as seen from its inputs: invalid input
/// fails the caller with the first violated rule and touches the storage
/// queue not at all; valid input puts the role lookup on the queue and
/// waits for it, unless the queue refuses, which fails the caller with the
/// send error.
pub open spec fn saga_started(
    pre: StagedChannel<StorageRequest>,
    post: StagedChannel<StorageRequest>,
    country: String,
    name: String,
    address: Address,
    user_id: String,
    phase: OrgSagaPhase,
) -> bool {
    if !valid_create_organization_input(country@, name@, address) {
        post@ == pre@ && (phase matches OrgSagaPhase::Finished { caller, outcome } && outcome
            matches Err(e) && e.kind == ErrorKind::ValidationFailure && e.message@
            == first_validation_error_message(country@, name@, address) && resolved_with_err(
            caller@,
            e,
        ))
    } else if can_accept(pre) {
        sent_role_request(pre@, post@) && (phase matches OrgSagaPhase::AwaitingRole {
            country: c,
            name: n,
            address: ad,
            user_id: u,
            caller,
        } && c == country && n == name && ad == address && u == user_id && caller@
            matches ReplyState::Pending)
    } else {
        post@ == pre@ && (phase matches OrgSagaPhase::Finished { caller, outcome } && outcome
            matches Err(e) && e.kind == crate::forward::send_refusal_kind(pre)
            && resolved_with_err(caller@, e))
    }
}

/// Start the saga for one organization-creation action: validate the
/// input, then forward the admin-role lookup to the storage stage.
pub fn handle_create_organization(
    country: String,
    name: String,
    address: Address,
    user_id: String,
    caller: ReplyHandle<String>,
    storage: &mut StagedChannel<StorageRequest>,
) -> (res: OrgSagaPhase)
    requires
        old(storage).wf(),
        caller@ matches ReplyState::Pending,
    ensures
        final(storage).wf(),
        final(storage).cap() == old(storage).cap(),
        final(storage).is_closed() == old(storage).is_closed(),
        saga_started(*old(storage), *final(storage), country, name, address, user_id, res),
{
    let mut caller = caller;
    match validate_create_organization_input(&mut caller, &country, &name, &address) {
        Err(e) => {
            return OrgSagaPhase::Finished { caller, outcome: Err(e) };
        },
        Ok(_) => {},
    }
    let replier = ReplyHandle::<String>::create();
    let request = StorageRequest::Role(Some(RoleAction::GetAdminRoleId { replier }));
    match forward_send(storage, request, &mut caller) {
        Err(e) => OrgSagaPhase::Finished { caller, outcome: Err(e) },
        Ok(_) => {
            proof {
                assert(storage@.subrange(0, old(storage)@.len() as int) =~= old(storage)@);
            }
            OrgSagaPhase::AwaitingRole { country, name, address, user_id, caller }
        },
    }
}

/// Check the organization-creation input. The first violated rule is
/// reported as a validation error, delivered through the caller's reply
/// handle (best effort) and returned; valid input passes untouched. No
/// storage work happens here, whatever the outcome.
pub fn validate_create_organization_input(
    caller: &mut ReplyHandle<String>,
    country: &String,
    name: &String,
    address: &Address,
) -> (res: Result<(), Error>)
    ensures
        (res matches Ok(_)) <==> valid_create_organization_input(country@, name@, *address),
        res matches Ok(_) ==> final(caller)@ == old(caller)@,
        res matches Err(e) ==> e.kind == ErrorKind::ValidationFailure && e.message@
            == first_validation_error_message(country@, name@, *address)
            && crate::forward::best_effort_notified(old(caller)@, final(caller)@, e),
{
    if country.as_str().is_empty() {
        let e = Error::new(ErrorKind::ValidationFailure, "country is empty".to_owned());
        let _ = caller.resolve(Err(e.clone()));
        return Err(e);
    }
    if name.as_str().is_empty() {
        let e = Error::new(ErrorKind::ValidationFailure, "name is empty".to_owned());
        let _ = caller.resolve(Err(e.clone()));
        return Err(e);
    }
    if address.country().as_str().is_empty() {
        let e = Error::new(ErrorKind::ValidationFailure, "address country is empty".to_owned());
        let _ = caller.resolve(Err(e.clone()));
        return Err(e);
    }
    if address.city().as_str().is_empty() {
        let e = Error::new(ErrorKind::ValidationFailure, "address city is empty".to_owned());
        let _ = caller.resolve(Err(e.clone()));
        return Err(e);
    }
    if address.street().as_str().is_empty() {
        let e = Error::new(ErrorKind::ValidationFailure, "address street is empty".to_owned());
        let _ = caller.resolve(Err(e.clone()));
        return Err(e);
    }
    if address.number().as_str().is_empty() {
        let e = Error::new(ErrorKind::ValidationFailure, "address number is empty".to_owned());
        let _ = caller.resolve(Err(e.clone()));
        return Err(e);
    }
    if address.postal_code().as_str().is_empty() {
        let e = Error::new(ErrorKind::ValidationFailure, "address postal code is empty".to_owned());
        let _ = caller.resolve(Err(e.clone()));
        return Err(e);
    }
    if !country_code_recognized(country.as_str()) {
        let e = Error::new(ErrorKind::ValidationFailure, "invalid country specified".to_owned());
        let _ = caller.resolve(Err(e.clone()));
        return Err(e);
    }
    Ok(())
}

/// Take the admin-role answer and, on success, forward the organization
/// insert. Any failure of the role lookup — an error it reported, a
/// timeout, a vanished handler — is delivered to the caller with kind and
/// message unchanged and ends the saga with no further storage request.
pub fn on_admin_role_reply(
    country: String,
    name: String,
    address: Address,
    user_id: String,
    caller: ReplyHandle<String>,
    role_reply: ReplyHandle<String>,
    deadline_elapsed: bool,
    storage: &mut StagedChannel<StorageRequest>,
) -> (res: OrgSagaPhase)
    requires
        old(storage).wf(),
        caller@ matches ReplyState::Pending,
        role_reply@ matches ReplyState::Pending ==> deadline_elapsed,
        !(role_reply@ matches ReplyState::Taken),
        !(role_reply@ matches ReplyState::ReceiverGone),
    ensures
        final(storage).wf(),
        final(storage).cap() == old(storage).cap(),
        final(storage).is_closed() == old(storage).is_closed(),
        match role_reply@ {
            ReplyState::Resolved(r) => match r {
                Ok(admin_role_id) => if can_accept(*old(storage)) {
                    sent_organization_request(
                        old(storage)@,
                        final(storage)@,
                        country,
                        name,
                        address,
                    ) && (res matches OrgSagaPhase::AwaitingOrganization {
                        user_id: u,
                        admin_role_id: rid,
                        caller: c,
                    } && u == user_id && rid == admin_role_id && c@ matches ReplyState::Pending)
                } else {
                    final(storage)@ == old(storage)@ && failed_step(
                        res,
                        crate::forward::send_refusal_kind(*old(storage)),
                        crate::forward::send_refusal_kind(*old(storage)),
                    )
                },
                Err(e0) => final(storage)@ == old(storage)@ && (res
                    matches OrgSagaPhase::Finished { caller: c, outcome } && outcome matches Err(e)
                    && err_equiv(e, e0) && resolved_with_err(c@, e)),
            },
            ReplyState::SenderGone => final(storage)@ == old(storage)@ && failed_step(
                res,
                ErrorKind::ReceiveFailure,
                ErrorKind::ReceiveFailure,
            ),
            ReplyState::Pending => final(storage)@ == old(storage)@ && failed_step(
                res,
                ErrorKind::ReceiveTimeout,
                ErrorKind::ReceiveTimeout,
            ),
            _ => false,
        },
{
    let mut caller = caller;
    let mut role_reply = role_reply;
    match forward_await(&mut role_reply, deadline_elapsed, &mut caller) {
        Err(e) => OrgSagaPhase::Finished { caller, outcome: Err(e) },
        Ok(admin_role_id) => {
            let replier = ReplyHandle::<String>::create();
            let request = StorageRequest::Organization(
                Some(StorageOrganizationAction::Create { country, name, address, replier }),
            );
            match forward_send(storage, request, &mut caller) {
                Err(e) => OrgSagaPhase::Finished { caller, outcome: Err(e) },
                Ok(_) => {
                    proof {
                        assert(storage@.subrange(0, old(storage)@.len() as int) =~= old(
                            storage,
                        )@);
                    }
                    OrgSagaPhase::AwaitingOrganization { user_id, admin_role_id, caller }
                },
            }
        },
    }
}

/// The saga ended on a failed step: the caller's reply handle holds an
/// error of one of the two admissible kinds, and the same error is the
/// reported outcome.
pub open spec fn failed_step(res: OrgSagaPhase, k1: ErrorKind, k2: ErrorKind) -> bool {
    res matches OrgSagaPhase::Finished { caller, outcome } && outcome matches Err(e) && (e.kind
        == k1 || e.kind == k2) && resolved_with_err(caller@, e)
}

/// Take the organization-insert answer and, on success, forward the
/// membership insert, remembering the new organization's identifier for
/// the final reply. Failures behave as in the role step.
pub fn on_organization_reply(
    user_id: String,
    admin_role_id: String,
    caller: ReplyHandle<String>,
    organization_reply: ReplyHandle<String>,
    deadline_elapsed: bool,
    storage: &mut StagedChannel<StorageRequest>,
) -> (res: OrgSagaPhase)
    requires
        old(storage).wf(),
        caller@ matches ReplyState::Pending,
        organization_reply@ matches ReplyState::Pending ==> deadline_elapsed,
        !(organization_reply@ matches ReplyState::Taken),
        !(organization_reply@ matches ReplyState::ReceiverGone),
    ensures
        final(storage).wf(),
        final(storage).cap() == old(storage).cap(),
        final(storage).is_closed() == old(storage).is_closed(),
        match organization_reply@ {
            ReplyState::Resolved(r) => match r {
                Ok(organization_id) => if can_accept(*old(storage)) {
                    sent_member_request(
                        old(storage)@,
                        final(storage)@,
                        user_id,
                        admin_role_id,
                        organization_id@,
                    ) && (res matches OrgSagaPhase::AwaitingMember {
                        organization_id: oid,
                        caller: c,
                    } && oid == organization_id && c@ matches ReplyState::Pending)
                } else {
                    final(storage)@ == old(storage)@ && failed_step(
                        res,
                        crate::forward::send_refusal_kind(*old(storage)),
                        crate::forward::send_refusal_kind(*old(storage)),
                    )
                },
                Err(e0) => final(storage)@ == old(storage)@ && (res
                    matches OrgSagaPhase::Finished { caller: c, outcome } && outcome matches Err(e)
                    && err_equiv(e, e0) && resolved_with_err(c@, e)),
            },
            ReplyState::SenderGone => final(storage)@ == old(storage)@ && failed_step(
                res,
                ErrorKind::ReceiveFailure,
                ErrorKind::ReceiveFailure,
            ),
            ReplyState::Pending => final(storage)@ == old(storage)@ && failed_step(
                res,
                ErrorKind::ReceiveTimeout,
                ErrorKind::ReceiveTimeout,
            ),
            _ => false,
        },
{
    let mut caller = caller;
    let mut organization_reply = organization_reply;
    match forward_await(&mut organization_reply, deadline_elapsed, &mut caller) {
        Err(e) => OrgSagaPhase::Finished { caller, outcome: Err(e) },
        Ok(organization_id) => {
            let member_organization_id = organization_id.clone();
            let replier = ReplyHandle::<()>::create();
            let request = StorageRequest::Member(
                Some(
                    MemberAction::Create {
                        user_id,
                        admin_role_id,
                        organization_id: member_organization_id,
                        replier,
                    },
                ),
            );
            match forward_send(storage, request, &mut caller) {
                Err(e) => OrgSagaPhase::Finished { caller, outcome: Err(e) },
                Ok(_) => {
                    proof {
                        assert(storage@.subrange(0, old(storage)@.len() as int) =~= old(
                            storage,
                        )@);
                    }
                    OrgSagaPhase::AwaitingMember { organization_id, caller }
                },
            }
        },
    }
}

/// Take the membership-insert answer and finish the saga. On success the
/// caller receives the new organization's identifier. On failure the
/// caller receives the membership insert's own error, kind and message
/// unchanged — and nothing is undone: the saga issues no further storage
/// request, so the organization inserted by the previous step persists
/// without a membership.
pub fn on_member_reply(
    organization_id: String,
    caller: ReplyHandle<String>,
    member_reply: ReplyHandle<()>,
    deadline_elapsed: bool,
) -> (res: OrgSagaPhase)
    requires
        caller@ matches ReplyState::Pending,
        member_reply@ matches ReplyState::Pending ==> deadline_elapsed,
        !(member_reply@ matches ReplyState::Taken),
        !(member_reply@ matches ReplyState::ReceiverGone),
    ensures
        match member_reply@ {
            ReplyState::Resolved(r) => match r {
                Ok(_) => res matches OrgSagaPhase::Finished { caller: c, outcome } && outcome
                    matches Ok(_) && c@ == ReplyState::<String>::Resolved(Ok(organization_id)),
                Err(e0) => res matches OrgSagaPhase::Finished { caller: c, outcome } && outcome
                    matches Err(e) && err_equiv(e, e0) && resolved_with_err(c@, e),
            },
            ReplyState::SenderGone => failed_step(
                res,
                ErrorKind::ReceiveFailure,
                ErrorKind::ReceiveFailure,
            ),
            ReplyState::Pending => failed_step(
                res,
                ErrorKind::ReceiveTimeout,
                ErrorKind::ReceiveTimeout,
            ),
            _ => false,
        },
{
    let mut caller = caller;
    let mut member_reply = member_reply;
    match forward_await(&mut member_reply, deadline_elapsed, &mut caller) {
        Err(e) => OrgSagaPhase::Finished { caller, outcome: Err(e) },
        Ok(_) => {
            let _ = caller.resolve(Ok(organization_id));
            OrgSagaPhase::Finished { caller, outcome: Ok(()) }
        },
    }
}

} // verus!
