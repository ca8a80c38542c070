//! Tagged requests delivered to the logic stage.
//!
//! A request is a closed variant set; each variant optionally carries its
//! action. A variant holding `None` is a tag-only instance: it exists
//! purely to name the variant for dispatch-table registration and is never
//! sent as real traffic.

use vstd::prelude::*;

use crate::address::Address;
use crate::reply::ReplyHandle;

verus! {

/// The payload of an organization-level business operation.
pub enum OrganizationAction {
    /// Create an organization for the acting user.
    Create {
        country: String,
        name: String,
        address: Address,
        user_id: String,
        replier: ReplyHandle<String>,
    },
}

/// The payload of an invitation-code business operation.
pub enum InvitationCodeAction {
    /// Create an invitation code for an organization.
    Create {
        org_id: String,
        permissions: Vec<String>,
        roles: Vec<String>,
        replier: ReplyHandle<String>,
    },
}

/// One tagged request for the logic stage.
pub enum LogicRequest {
    Organization(Option<OrganizationAction>),
    InvitationCode(Option<InvitationCodeAction>),
}

/// The variant identity of a logic request, independent of its payload.
#[derive(Clone, Copy, PartialEq, Eq, Structural, Debug)]
pub enum LogicTag {
    Organization,
    InvitationCode,
}

impl LogicRequest {
    /// The tag of this request: its variant identity, ignoring the payload.
    pub open spec fn spec_tag(&self) -> LogicTag {
        match self {
            LogicRequest::Organization(_) => LogicTag::Organization,
            LogicRequest::InvitationCode(_) => LogicTag::InvitationCode,
        }
    }

    /// The tag of this request: its variant identity, ignoring the payload.
    pub fn tag(&self) -> (t: LogicTag)
        ensures
            t == self.spec_tag(),
    {
        match self {
            LogicRequest::Organization(_) => LogicTag::Organization,
            LogicRequest::InvitationCode(_) => LogicTag::InvitationCode,
        }
    }
}

} // verus!
