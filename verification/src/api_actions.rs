//! The API stage: decode one external call into a tagged logic request
//! carrying a fresh reply handle, push it onto the logic channel, and — in
//! a separate step, once the runtime hands the resolved handle back —
//! answer the external caller within the configured timeout.
//!
//! Decoding of the wire payload happens outside this core; an action here
//! receives the decoded payload, or nothing if decoding failed, and turns
//! every failure into the typed error the external caller sees. Raw
//! plumbing failures never cross the API boundary.

use vstd::prelude::*;

use crate::address::Address;
use crate::channel::{can_accept, StagedChannel, TrySend};
use crate::error::{Error, ErrorKind};
use crate::logic_request::{InvitationCodeAction, LogicRequest, OrganizationAction};
use crate::reply::{ReplyHandle, ReplyState};

verus! {

/// How long the API stage waits for an organization creation, in
/// milliseconds.
pub const TIMEOUT_CREATE_ORGANIZATION_IN_MILLISECONDS: u64 = 10000;

/// How long the API stage waits for an invitation-code creation, in
/// milliseconds.
pub const TIMEOUT_CREATE_INVITATION_CODE_IN_MILLISECONDS: u64 = 10000;

/// The decoded payload of an organization-creation call.
pub struct CreateOrganization {
    pub country: String,
    pub name: String,
    pub address: Address,
    pub user_id: String,
}

/// The decoded payload of an invitation-code-creation call.
pub struct CreateInvitationCode {
    pub org_id: String,
    pub permissions: Vec<String>,
    pub roles: Vec<String>,
}

impl Default for Address {
    /// An address with every part empty.
    fn default() -> (a: Address)
        ensures
            a.country@.len() == 0,
            a.city@.len() == 0,
            a.street@.len() == 0,
            a.number@.len() == 0,
            a.postal_code@.len() == 0,
    {
        Address {
            country: String::new(),
            city: String::new(),
            street: String::new(),
            number: String::new(),
            postal_code: String::new(),
        }
    }
}

impl Default for CreateOrganization {
    /// A payload with every field empty.
    fn default() -> (p: CreateOrganization)
        ensures
            p.country@.len() == 0,
            p.name@.len() == 0,
            p.address.country@.len() == 0,
            p.address.city@.len() == 0,
            p.address.street@.len() == 0,
            p.address.number@.len() == 0,
            p.address.postal_code@.len() == 0,
            p.user_id@.len() == 0,
    {
        CreateOrganization {
            country: String::new(),
            name: String::new(),
            address: Address::default(),
            user_id: String::new(),
        }
    }
}

/// Exactly one new request stands at the back of the logic queue: an
/// organization creation carrying these fields and a fresh reply handle.
pub open spec fn sent_organization_logic_request(
    pre: Seq<LogicRequest>,
    post: Seq<LogicRequest>,
    country: String,
    name: String,
    address: Address,
    user_id: Seq<char>,
) -> bool {
    post.len() == pre.len() + 1 && post.subrange(0, pre.len() as int) == pre && (post.last()
        matches LogicRequest::Organization(a) && a matches Some(oa) && oa matches OrganizationAction::Create {
        country: c,
        name: n,
        address: ad,
        user_id: u,
        replier,
    } && c == country && n == name && ad == address && u@ == user_id && replier@
        matches ReplyState::Pending)
}

/// Exactly one new request stands at the back of the logic queue: an
/// invitation-code creation carrying these fields and a fresh reply
/// handle.
pub open spec fn sent_invitation_logic_request(
    pre: Seq<LogicRequest>,
    post: Seq<LogicRequest>,
    org_id: String,
    permissions: Vec<String>,
    roles: Vec<String>,
) -> bool {
    post.len() == pre.len() + 1 && post.subrange(0, pre.len() as int) == pre && (post.last()
        matches LogicRequest::InvitationCode(a) && a matches Some(ia) && ia matches InvitationCodeAction::Create {
        org_id: o,
        permissions: p,
        roles: r,
        replier,
    } && o == org_id && p == permissions && r == roles && replier@ matches ReplyState::Pending)
}

/// A rejected or refused call left the logic queue untouched and produced
/// an error of the expected kind.
pub open spec fn api_send_failed(
    pre: Seq<LogicRequest>,
    post: Seq<LogicRequest>,
    res: Result<(), Error>,
    kind: ErrorKind,
    message: Seq<char>,
) -> bool {
    post == pre && (res matches Err(e) && e.kind == kind && e.message@ == message)
}

/// Push one decoded request onto the logic channel. Shared by every API
/// action: a channel that is closed or full refuses the call with a typed
/// send error, and the external caller never sees raw plumbing failures.
fn push_logic_request(logic: &mut StagedChannel<LogicRequest>, request: LogicRequest) -> (res:
    Result<(), Error>)
    requires
        old(logic).wf(),
    ensures
        final(logic).wf(),
        final(logic).cap() == old(logic).cap(),
        final(logic).is_closed() == old(logic).is_closed(),
        (res matches Ok(_)) <==> can_accept(*old(logic)),
        res matches Ok(_) ==> final(logic)@ == old(logic)@.push(request),
        res matches Err(e) ==> final(logic)@ == old(logic)@ && (if old(logic).is_closed() {
            e.kind == ErrorKind::SendFailure && e.message@
                == "failed to send logic request: channel is closed"@
        } else {
            e.kind == ErrorKind::SendTimeout && e.message@
                == "timed out sending logic request: channel is full"@
        }),
{
    match logic.try_send(request) {
        TrySend::Accepted => Ok(()),
        TrySend::Closed(_) => Err(
            Error::new(
                ErrorKind::SendFailure,
                "failed to send logic request: channel is closed".to_owned(),
            ),
        ),
        TrySend::Congested(_) => Err(
            Error::new(
                ErrorKind::SendTimeout,
                "timed out sending logic request: channel is full".to_owned(),
            ),
        ),
    }
}

/// The organization-creation API action: the decoded payload, or nothing
/// if decoding failed, becomes one tagged logic request with a fresh
/// reply handle. `Ok` means the request is on the queue and the caller's
/// answer will come through that handle.
pub fn create_org(payload: Option<CreateOrganization>, logic: &mut StagedChannel<LogicRequest>)
    -> (res: Result<(), Error>)
    requires
        old(logic).wf(),
    ensures
        final(logic).wf(),
        final(logic).cap() == old(logic).cap(),
        final(logic).is_closed() == old(logic).is_closed(),
        match payload {
            None => api_send_failed(
                old(logic)@,
                final(logic)@,
                res,
                ErrorKind::ValidationFailure,
                "invalid payload"@,
            ),
            Some(p) => if can_accept(*old(logic)) {
                (res matches Ok(_)) && sent_organization_logic_request(
                    old(logic)@,
                    final(logic)@,
                    p.country,
                    p.name,
                    p.address,
                    p.user_id@,
                )
            } else {
                final(logic)@ == old(logic)@ && (res matches Err(e) && e.kind
                    == crate::forward::send_refusal_kind(*old(logic)))
            },
        },
{
    let p = match payload {
        Some(p) => p,
        None => {
            return Err(Error::new(ErrorKind::ValidationFailure, "invalid payload".to_owned()));
        },
    };
    let replier = ReplyHandle::<String>::create();
    let request = LogicRequest::Organization(
        Some(
            OrganizationAction::Create {
                country: p.country,
                name: p.name,
                address: p.address,
                user_id: p.user_id,
                replier,
            },
        ),
    );
    let res = push_logic_request(logic, request);
    proof {
        if res is Ok {
            assert(logic@.subrange(0, old(logic)@.len() as int) =~= old(logic)@);
        }
    }
    res
}

/// The organization-creation API action in its header-extras form: the
/// acting user's identifier arrives as a header extra placed there by the
/// external authenticator, not in the payload. A missing extra rejects
/// the call before anything is enqueued.
pub fn create_organization(
    payload: Option<CreateOrganization>,
    user_id_extra: Option<String>,
    logic: &mut StagedChannel<LogicRequest>,
) -> (res: Result<(), Error>)
    requires
        old(logic).wf(),
    ensures
        final(logic).wf(),
        final(logic).cap() == old(logic).cap(),
        final(logic).is_closed() == old(logic).is_closed(),
        match payload {
            None => api_send_failed(
                old(logic)@,
                final(logic)@,
                res,
                ErrorKind::ValidationFailure,
                "invalid payload"@,
            ),
            Some(p) => match user_id_extra {
                None => api_send_failed(
                    old(logic)@,
                    final(logic)@,
                    res,
                    ErrorKind::ValidationFailure,
                    "missing 'user_id' extra from request header"@,
                ),
                Some(user_id) => if can_accept(*old(logic)) {
                    (res matches Ok(_)) && sent_organization_logic_request(
                        old(logic)@,
                        final(logic)@,
                        p.country,
                        p.name,
                        p.address,
                        user_id@,
                    )
                } else {
                    final(logic)@ == old(logic)@ && (res matches Err(e) && e.kind
                        == crate::forward::send_refusal_kind(*old(logic)))
                },
            },
        },
{
    let p = match payload {
        Some(p) => p,
        None => {
            return Err(Error::new(ErrorKind::ValidationFailure, "invalid payload".to_owned()));
        },
    };
    let user_id = match user_id_extra {
        Some(user_id) => user_id,
        None => {
            return Err(
                Error::new(
                    ErrorKind::ValidationFailure,
                    "missing 'user_id' extra from request header".to_owned(),
                ),
            );
        },
    };
    let replier = ReplyHandle::<String>::create();
    let request = LogicRequest::Organization(
        Some(
            OrganizationAction::Create {
                country: p.country,
                name: p.name,
                address: p.address,
                user_id,
                replier,
            },
        ),
    );
    let res = push_logic_request(logic, request);
    proof {
        if res is Ok {
            assert(logic@.subrange(0, old(logic)@.len() as int) =~= old(logic)@);
        }
    }
    res
}

/// The invitation-code-creation API action.
pub fn create_invitation_code(
    payload: Option<CreateInvitationCode>,
    logic: &mut StagedChannel<LogicRequest>,
) -> (res: Result<(), Error>)
    requires
        old(logic).wf(),
    ensures
        final(logic).wf(),
        final(logic).cap() == old(logic).cap(),
        final(logic).is_closed() == old(logic).is_closed(),
        match payload {
            None => api_send_failed(
                old(logic)@,
                final(logic)@,
                res,
                ErrorKind::ValidationFailure,
                "invalid payload"@,
            ),
            Some(p) => if can_accept(*old(logic)) {
                (res matches Ok(_)) && sent_invitation_logic_request(
                    old(logic)@,
                    final(logic)@,
                    p.org_id,
                    p.permissions,
                    p.roles,
                )
            } else {
                final(logic)@ == old(logic)@ && (res matches Err(e) && e.kind
                    == crate::forward::send_refusal_kind(*old(logic)))
            },
        },
{
    let p = match payload {
        Some(p) => p,
        None => {
            return Err(Error::new(ErrorKind::ValidationFailure, "invalid payload".to_owned()));
        },
    };
    let replier = ReplyHandle::<String>::create();
    let request = LogicRequest::InvitationCode(
        Some(
            InvitationCodeAction::Create {
                org_id: p.org_id,
                permissions: p.permissions,
                roles: p.roles,
                replier,
            },
        ),
    );
    let res = push_logic_request(logic, request);
    proof {
        if res is Ok {
            assert(logic@.subrange(0, old(logic)@.len() as int) =~= old(logic)@);
        }
    }
    res
}

/// The actions the API stage can run.
#[derive(Clone, Copy, PartialEq, Eq, Structural, Debug)]
pub enum ApiHandler {
    /// The organization-creation action.
    CreateOrg,
    /// The invitation-code-creation action.
    CreateInvitationCode,
}

/// The handler the first entry with this action name names, front to
/// back; a later registration shadows an earlier one because registration
/// prepends.
pub open spec fn spec_api_lookup(
    entries: Seq<(String, ApiHandler)>,
    action: Seq<char>,
) -> Option<ApiHandler>
    decreases entries.len(),
{
    if entries.len() == 0 {
        None
    } else if entries[0].0@ == action {
        Some(entries[0].1)
    } else {
        spec_api_lookup(entries.subrange(1, entries.len() as int), action)
    }
}

/// The API stage's routes: action names to handlers. At this stage the
/// tag of a request is its string action name.
pub struct ApiRoutes {
    entries: Vec<(String, ApiHandler)>,
}

impl View for ApiRoutes {
    type V = Seq<(String, ApiHandler)>;

    closed spec fn view(&self) -> Seq<(String, ApiHandler)> {
        self.entries@
    }
}

impl ApiRoutes {
    /// An empty route set: every lookup misses.
    pub fn new() -> (r: ApiRoutes)
        ensures
            r@ == Seq::<(String, ApiHandler)>::empty(),
    {
        ApiRoutes { entries: Vec::new() }
    }

    /// Register a handler under an action name, shadowing any earlier
    /// registration.
    pub fn register(&mut self, action: String, handler: ApiHandler)
        ensures
            final(self)@ == seq![(action, handler)] + old(self)@,
    {
        self.entries.insert(0, (action, handler));
    }

    /// The handler registered under this action name, if any.
    pub fn lookup(&self, action: &String) -> (res: Option<ApiHandler>)
        ensures
            res == spec_api_lookup(self@, action@),
    {
        let n = self.entries.len();
        proof {
            assert(self@.subrange(0, n as int) =~= self@);
        }
        for i in 0..n
            invariant
                n == self.entries.len(),
                spec_api_lookup(self@, action@) == spec_api_lookup(
                    self@.subrange(i as int, n as int),
                    action@,
                ),
        {
            proof {
                assert(self@.subrange(i as int, n as int)[0] == self@[i as int]);
                assert(self@.subrange(i as int, n as int).subrange(
                    1,
                    (n - i) as int,
                ) == self@.subrange(i + 1, n as int));
            }
            if self.entries[i].0.eq(action) {
                return Some(self.entries[i].1);
            }
        }
        None
    }
}

/// The process-wide API routes, built once at startup: the two actions
/// the service offers, each registered under its wire name.
pub fn get_api_actions() -> (r: ApiRoutes)
    ensures
        spec_api_lookup(r@, "create_org"@) == Some(ApiHandler::CreateOrg),
        spec_api_lookup(r@, "create_invitation_code"@) == Some(ApiHandler::CreateInvitationCode),
{
    let mut r = ApiRoutes::new();
    r.register("create_org".to_owned(), ApiHandler::CreateOrg);
    r.register("create_invitation_code".to_owned(), ApiHandler::CreateInvitationCode);
    proof {
        reveal_strlit("create_org");
        reveal_strlit("create_invitation_code");
        assert("create_org"@.len() == 10);
        assert("create_invitation_code"@.len() == 22);
        assert(r@.len() == 2);
        assert(r@[0].0@ == "create_invitation_code"@);
        assert(r@[1].0@ == "create_org"@);
        let ghost tail = seq![r@[1]];
        assert(r@.subrange(1, 2) =~= tail);
        assert(tail.subrange(1, 1) =~= Seq::<(String, ApiHandler)>::empty());
        assert(spec_api_lookup(tail, "create_org"@) == Some(ApiHandler::CreateOrg));
    }
    r
}

/// Settle the external caller's answer once the runtime hands the reply
/// handle back or the timeout elapses. A delivered result — success or
/// the origin's typed error — is returned exactly as it stands; a handler
/// that vanished or never answered becomes a typed receive error. The
/// caller therefore always gets a definite, typed answer within its
/// timeout.
pub fn api_await(reply: ReplyHandle<String>, deadline_elapsed: bool) -> (res: Result<
    String,
    Error,
>)
    requires
        reply@ matches ReplyState::Pending ==> deadline_elapsed,
        !(reply@ matches ReplyState::Taken),
        !(reply@ matches ReplyState::ReceiverGone),
    ensures
        match reply@ {
            ReplyState::Resolved(r) => res == r,
            ReplyState::SenderGone => res matches Err(e) && e.kind == ErrorKind::ReceiveFailure,
            ReplyState::Pending => res matches Err(e) && e.kind == ErrorKind::ReceiveTimeout,
            _ => false,
        },
{
    let mut reply = reply;
    reply.await_result(deadline_elapsed)
}

} // verus!
