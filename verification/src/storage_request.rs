//! Tagged requests delivered to the storage stage.

use vstd::prelude::*;

use crate::address::Address;
use crate::reply::ReplyHandle;

verus! {

/// The payload of one organization storage operation.
pub enum OrganizationAction {
    /// Insert one organization document; replies with its generated id.
    Create { country: String, name: String, address: Address, replier: ReplyHandle<String> },
}

/// The payload of one role storage operation.
pub enum RoleAction {
    /// Find the default admin role; replies with its id.
    GetAdminRoleId { replier: ReplyHandle<String> },
}

/// The payload of one member storage operation.
pub enum MemberAction {
    /// Insert one membership document linking a user to an organization.
    Create {
        user_id: String,
        admin_role_id: String,
        organization_id: String,
        replier: ReplyHandle<()>,
    },
}

/// The payload of one invitation-code storage operation.
pub enum InvitationCodeAction {
    /// Insert one invitation-code document; replies with the code.
    Create {
        code: String,
        org_id: String,
        permissions: Vec<String>,
        roles: Vec<String>,
        replier: ReplyHandle<String>,
    },
}

/// One tagged request for the storage stage.
pub enum StorageRequest {
    Organization(Option<OrganizationAction>),
    Role(Option<RoleAction>),
    Member(Option<MemberAction>),
    InvitationCode(Option<InvitationCodeAction>),
}

/// The variant identity of a storage request, independent of its payload.
#[derive(Clone, Copy, PartialEq, Eq, Structural, Debug)]
pub enum StorageTag {
    Organization,
    Role,
    Member,
    InvitationCode,
}

impl StorageRequest {
    /// The tag of this request: its variant identity, ignoring the payload.
    pub open spec fn spec_tag(&self) -> StorageTag {
        match self {
            StorageRequest::Organization(_) => StorageTag::Organization,
            StorageRequest::Role(_) => StorageTag::Role,
            StorageRequest::Member(_) => StorageTag::Member,
            StorageRequest::InvitationCode(_) => StorageTag::InvitationCode,
        }
    }

    /// The tag of this request: its variant identity, ignoring the payload.
    pub fn tag(&self) -> (t: StorageTag)
        ensures
            t == self.spec_tag(),
    {
        match self {
            StorageRequest::Organization(_) => StorageTag::Organization,
            StorageRequest::Role(_) => StorageTag::Role,
            StorageRequest::Member(_) => StorageTag::Member,
            StorageRequest::InvitationCode(_) => StorageTag::InvitationCode,
        }
    }
}

} // verus!
