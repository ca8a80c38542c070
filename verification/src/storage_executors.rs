//! The storage stage: routing of storage requests to their executors, the
//! exact documents each executor asks the backend to store or find, and
//! how each executor settles its reply handle from the backend's answer.
//!
//! The backend itself (one "insert one document" or "find one document"
//! call) lives outside this core; the runtime performs it between
//! [`route_storage_request`], which builds the document and extracts the
//! reply handle, and the executor that settles the reply from the
//! backend's outcome. No executor retries: a failure is terminal for that
//! call.

use vstd::prelude::*;

use vstd::string::StringExecFns;

use crate::address::Address;
use crate::error::{Error, ErrorKind};
use crate::forward::best_effort_notified;
use crate::reply::{ReplyHandle, ReplyState};
use crate::role::Role;
use crate::storage_request::{
    InvitationCodeAction, MemberAction, OrganizationAction, RoleAction, StorageRequest,
};

verus! {

/// The organization document the backend is asked to insert.
pub struct OrganizationDocument {
    pub country: String,
    pub name: String,
    pub address: Address,
}

/// The membership document the backend is asked to insert.
pub struct MemberDocument {
    pub user_id: String,
    pub organization_id: String,
    pub roles: Vec<String>,
}

/// The invitation-code document the backend is asked to insert.
pub struct InvitationCodeDocument {
    pub code: String,
    pub org_id: String,
    pub permissions: Vec<String>,
    pub roles: Vec<String>,
}

/// One storage request routed to its executor: the document to hand the
/// backend (or the lookup to run) paired with the reply handle to settle.
pub enum StorageJob {
    Organization { doc: OrganizationDocument, replier: ReplyHandle<String> },
    Role { replier: ReplyHandle<String> },
    Member { doc: MemberDocument, replier: ReplyHandle<()> },
    InvitationCode { doc: InvitationCodeDocument, replier: ReplyHandle<String> },
}

/// How an insert that must yield a generated identifier ended.
pub enum InsertOutcome {
    /// The document was inserted under this generated identifier.
    Inserted { id: String },
    /// The document was inserted but the backend handed back no identifier.
    MissingId,
    /// The backend refused or failed the insert.
    Failed { message: String },
}

/// How a plain write ended.
pub enum WriteOutcome {
    /// The document was inserted.
    Done,
    /// The backend refused or failed the insert.
    Failed { message: String },
}

/// How the lookup of the default admin role ended.
pub enum FindRoleOutcome {
    /// The role document that matched.
    Found { role: Role },
    /// No role is marked as the default admin role.
    Missing,
    /// The backend refused or failed the lookup.
    Failed { message: String },
}

/// The value was delivered through the reply handle if its caller was
/// still listening; otherwise the handle is untouched.
pub open spec fn best_effort_delivered<V>(pre: ReplyState<V>, post: ReplyState<V>, v: V) -> bool {
    match pre {
        ReplyState::Pending => post == ReplyState::Resolved(Ok(v)),
        _ => post == pre,
    }
}

/// The storage stage's dispatch: match a request directly to its executor,
/// building the exact document that executor hands the backend. A tag-only
/// request (one delivered without its action) is a programming defect of
/// the sender; it is reported as nothing to run, and the dispatch loop
/// logs and continues.
pub fn route_storage_request(request: StorageRequest) -> (res: Option<StorageJob>)
    ensures
        match request {
            StorageRequest::Organization(opt) => match opt {
                Some(a) => match a {
                    OrganizationAction::Create { country, name, address, replier } => res == Some(
                        (StorageJob::Organization {
                            doc: (OrganizationDocument { country, name, address }),
                            replier,
                        }),
                    ),
                },
                None => res == None::<StorageJob>,
            },
            StorageRequest::Role(opt) => match opt {
                Some(a) => match a {
                    RoleAction::GetAdminRoleId { replier } => res == Some(
                        (StorageJob::Role { replier }),
                    ),
                },
                None => res == None::<StorageJob>,
            },
            StorageRequest::Member(opt) => match opt {
                Some(a) => match a {
                    MemberAction::Create {
                        user_id,
                        admin_role_id,
                        organization_id,
                        replier,
                    } => res matches Some(j) && j matches StorageJob::Member { doc, replier: r2 }
                        && doc.user_id == user_id && doc.organization_id == organization_id
                        && doc.roles@.len() == 1 && doc.roles@[0] == admin_role_id && r2
                        == replier,
                },
                None => res == None::<StorageJob>,
            },
            StorageRequest::InvitationCode(opt) => match opt {
                Some(a) => match a {
                    InvitationCodeAction::Create { code, org_id, permissions, roles, replier } => res
                        == Some(
                        (StorageJob::InvitationCode {
                            doc: (InvitationCodeDocument { code, org_id, permissions, roles }),
                            replier,
                        }),
                    ),
                },
                None => res == None::<StorageJob>,
            },
        },
{
    match request {
        StorageRequest::Organization(opt) => match opt {
            Some(OrganizationAction::Create { country, name, address, replier }) => Some(
                StorageJob::Organization {
                    doc: OrganizationDocument { country, name, address },
                    replier,
                },
            ),
            None => None,
        },
        StorageRequest::Role(opt) => match opt {
            Some(RoleAction::GetAdminRoleId { replier }) => Some(StorageJob::Role { replier }),
            None => None,
        },
        StorageRequest::Member(opt) => match opt {
            Some(MemberAction::Create { user_id, admin_role_id, organization_id, replier }) => {
                let mut roles: Vec<String> = Vec::new();
                roles.push(admin_role_id);
                Some(
                    StorageJob::Member {
                        doc: MemberDocument { user_id, organization_id, roles },
                        replier,
                    },
                )
            },
            None => None,
        },
        StorageRequest::InvitationCode(opt) => match opt {
            Some(InvitationCodeAction::Create { code, org_id, permissions, roles, replier }) => Some(
                StorageJob::InvitationCode {
                    doc: InvitationCodeDocument { code, org_id, permissions, roles },
                    replier,
                },
            ),
            None => None,
        },
    }
}

/// Settle the reply of an organization insert: the generated identifier on
/// success; a typed storage error if the backend failed or handed back no
/// identifier, the error both delivered through the reply handle (best
/// effort) and returned for logging.
pub fn create_organization(replier: ReplyHandle<String>, outcome: InsertOutcome) -> (res: (
    ReplyHandle<String>,
    Result<(), Error>,
))
    ensures
        match outcome {
            InsertOutcome::Inserted { id } => res.1 matches Ok(_) && best_effort_delivered(
                replier@,
                res.0@,
                id,
            ),
            InsertOutcome::MissingId => res.1 matches Err(e) && e.kind == ErrorKind::StorageFailure
                && e.message@ == "failed to get organization id from entry"@
                && best_effort_notified(replier@, res.0@, e),
            InsertOutcome::Failed { message } => res.1 matches Err(e) && e.kind
                == ErrorKind::StorageFailure && e.message@ == "failed to insert new organization: "@
                + message@ && best_effort_notified(replier@, res.0@, e),
        },
{
    let mut replier = replier;
    match outcome {
        InsertOutcome::Inserted { id } => {
            let _ = replier.resolve(Ok(id));
            (replier, Ok(()))
        },
        InsertOutcome::MissingId => {
            let e = Error::new(
                ErrorKind::StorageFailure,
                "failed to get organization id from entry".to_owned(),
            );
            let _ = replier.resolve(Err(e.clone()));
            (replier, Err(e))
        },
        InsertOutcome::Failed { message } => {
            let e = Error::new(
                ErrorKind::StorageFailure,
                "failed to insert new organization: ".to_owned().concat(message.as_str()),
            );
            let _ = replier.resolve(Err(e.clone()));
            (replier, Err(e))
        },
    }
}

/// Settle the reply of the default-admin-role lookup: the stored role's
/// identifier on success; a typed storage error if no role is marked
/// default admin or the backend failed.
pub fn get_admin_role_id(replier: ReplyHandle<String>, outcome: FindRoleOutcome) -> (res: (
    ReplyHandle<String>,
    Result<(), Error>,
))
    ensures
        match outcome {
            FindRoleOutcome::Found { role } => res.1 matches Ok(_) && (match replier@ {
                ReplyState::Pending => res.0@ matches ReplyState::Resolved(r) && r matches Ok(i)
                    && i@ == role.id@,
                _ => res.0@ == replier@,
            }),
            FindRoleOutcome::Missing => res.1 matches Err(e) && e.kind == ErrorKind::StorageFailure
                && e.message@ == "could not find the admin role"@ && best_effort_notified(
                replier@,
                res.0@,
                e,
            ),
            FindRoleOutcome::Failed { message } => res.1 matches Err(e) && e.kind
                == ErrorKind::StorageFailure && e.message@ == "failed to find the admin role: "@
                + message@ && best_effort_notified(replier@, res.0@, e),
        },
{
    let mut replier = replier;
    match outcome {
        FindRoleOutcome::Found { role } => {
            let _ = replier.resolve(Ok(role.id()));
            (replier, Ok(()))
        },
        FindRoleOutcome::Missing => {
            let e = Error::new(
                ErrorKind::StorageFailure,
                "could not find the admin role".to_owned(),
            );
            let _ = replier.resolve(Err(e.clone()));
            (replier, Err(e))
        },
        FindRoleOutcome::Failed { message } => {
            let e = Error::new(
                ErrorKind::StorageFailure,
                "failed to find the admin role: ".to_owned().concat(message.as_str()),
            );
            let _ = replier.resolve(Err(e.clone()));
            (replier, Err(e))
        },
    }
}

/// Settle the reply of a membership insert: a bare acknowledgement on
/// success; a typed storage error otherwise.
pub fn create_member(replier: ReplyHandle<()>, outcome: WriteOutcome) -> (res: (
    ReplyHandle<()>,
    Result<(), Error>,
))
    ensures
        match outcome {
            WriteOutcome::Done => res.1 matches Ok(_) && best_effort_delivered(replier@, res.0@, ()),
            WriteOutcome::Failed { message } => res.1 matches Err(e) && e.kind
                == ErrorKind::StorageFailure && e.message@ == "failed to insert member: "@
                + message@ && best_effort_notified(replier@, res.0@, e),
        },
{
    let mut replier = replier;
    match outcome {
        WriteOutcome::Done => {
            let _ = replier.resolve(Ok(()));
            (replier, Ok(()))
        },
        WriteOutcome::Failed { message } => {
            let e = Error::new(
                ErrorKind::StorageFailure,
                "failed to insert member: ".to_owned().concat(message.as_str()),
            );
            let _ = replier.resolve(Err(e.clone()));
            (replier, Err(e))
        },
    }
}

/// Settle the reply of an invitation-code insert: the code itself on
/// success (the backend's generated identifier is not what callers need);
/// a typed storage error otherwise.
pub fn create_invitation_code(code: String, replier: ReplyHandle<String>, outcome: WriteOutcome)
    -> (res: (ReplyHandle<String>, Result<(), Error>))
    ensures
        match outcome {
            WriteOutcome::Done => res.1 matches Ok(_) && best_effort_delivered(
                replier@,
                res.0@,
                code,
            ),
            WriteOutcome::Failed { message } => res.1 matches Err(e) && e.kind
                == ErrorKind::StorageFailure && e.message@ == "failed to insert invitation code: "@
                + message@ && best_effort_notified(replier@, res.0@, e),
        },
{
    let mut replier = replier;
    match outcome {
        WriteOutcome::Done => {
            let _ = replier.resolve(Ok(code));
            (replier, Ok(()))
        },
        WriteOutcome::Failed { message } => {
            let e = Error::new(
                ErrorKind::StorageFailure,
                "failed to insert invitation code: ".to_owned().concat(message.as_str()),
            );
            let _ = replier.resolve(Err(e.clone()));
            (replier, Err(e))
        },
    }
}

} // verus!
