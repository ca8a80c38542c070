//! The dispatch table: a mapping from a request's tag — its variant
//! identity, independent of payload — to the handler responsible for it.
//!
//! Because equality of tags ignores payload contents, a handler can be
//! registered using a tag-only (payload-less) instance of a variant and
//! will still be found for every payload-bearing request of that variant.
//! The table is built once at startup and never mutated afterwards.

use vstd::prelude::*;

use crate::error::{Error, ErrorKind};
use crate::logic_request::{LogicRequest, LogicTag, OrganizationAction};

verus! {

/// The handlers the logic stage can run.
#[derive(Clone, Copy, PartialEq, Eq, Structural, Debug)]
pub enum LogicHandler {
    /// The organization-creation business executor.
    CreateOrganization,
    /// The invitation-code-creation business executor.
    CreateInvitationCode,
}

/// The handler the first entry with this tag names, front to back; a
/// later registration shadows an earlier one because registration
/// prepends.
pub open spec fn spec_lookup<H>(entries: Seq<(LogicTag, H)>, tag: LogicTag) -> Option<H>
    decreases entries.len(),
{
    if entries.len() == 0 {
        None
    } else if entries[0].0 == tag {
        Some(entries[0].1)
    } else {
        spec_lookup(entries.subrange(1, entries.len() as int), tag)
    }
}

/// A mapping from logic-request tags to handlers.
pub struct DispatchTable<H> {
    entries: Vec<(LogicTag, H)>,
}

impl<H> View for DispatchTable<H> {
    type V = Seq<(LogicTag, H)>;

    closed spec fn view(&self) -> Seq<(LogicTag, H)> {
        self.entries@
    }
}

impl<H> DispatchTable<H> {
    /// An empty table: every lookup misses.
    pub fn new() -> (t: DispatchTable<H>)
        ensures
            t@ == Seq::<(LogicTag, H)>::empty(),
    {
        DispatchTable { entries: Vec::new() }
    }

    /// Register a handler for a tag, shadowing any earlier registration.
    pub fn register(&mut self, tag: LogicTag, handler: H)
        ensures
            final(self)@ == seq![(tag, handler)] + old(self)@,
    {
        self.entries.insert(0, (tag, handler));
    }
}

impl<H: Copy> DispatchTable<H> {
    /// The handler registered for this tag, if any.
    pub fn lookup(&self, tag: LogicTag) -> (res: Option<H>)
        ensures
            res == spec_lookup(self@, tag),
    {
        let n = self.entries.len();
        proof {
            assert(self@.subrange(0, n as int) =~= self@);
        }
        for i in 0..n
            invariant
                n == self.entries.len(),
                forall|j: int| 0 <= j < i ==> self.entries@[j].0 != tag,
                spec_lookup(self@, tag) == spec_lookup(
                    self@.subrange(i as int, n as int),
                    tag,
                ),
        {
            proof {
                assert(self@.subrange(i as int, n as int)[0] == self@[i as int]);
                assert(self@.subrange(i as int, n as int).subrange(
                    1,
                    (n - i) as int,
                ) == self@.subrange(i + 1, n as int));
            }
            if self.entries[i].0 == tag {
                return Some(self.entries[i].1);
            }
        }
        None
    }

    /// Route a request's tag to its handler; a miss is an unroutable
    /// request, surfaced as a typed error.
    pub fn route(&self, tag: LogicTag) -> (res: Result<H, Error>)
        ensures
            match spec_lookup(self@, tag) {
                Some(h) => res matches Ok(h2) && h2 == h,
                None => res matches Err(e) && e.kind == ErrorKind::UnroutableRequest
                    && e.message@ == "no handler registered for request tag"@,
            },
    {
        match self.lookup(tag) {
            Some(h) => Ok(h),
            None => Err(
                Error::new(
                    ErrorKind::UnroutableRequest,
                    "no handler registered for request tag".to_owned(),
                ),
            ),
        }
    }
}

/// The process-wide logic-stage routes, built once at startup. As in the
/// running service, only the organization executor is registered; it is
/// registered under the tag of a tag-only (payload-less) request instance.
pub fn get_logic_executors() -> (t: DispatchTable<LogicHandler>)
    ensures
        spec_lookup(t@, LogicTag::Organization) == Some(LogicHandler::CreateOrganization),
        spec_lookup(t@, LogicTag::InvitationCode) == None::<LogicHandler>,
{
    let mut t = DispatchTable::new();
    let sentinel = LogicRequest::Organization(None);
    t.register(sentinel.tag(), LogicHandler::CreateOrganization);
    proof {
        assert(t@ =~= seq![(LogicTag::Organization, LogicHandler::CreateOrganization)]);
        assert(t@.subrange(1, 1) =~= Seq::<(LogicTag, LogicHandler)>::empty());
        assert(spec_lookup(Seq::<(LogicTag, LogicHandler)>::empty(), LogicTag::InvitationCode)
            == None::<LogicHandler>);
    }
    t
}

/// Tag-only dispatch: a handler registered under the tag of a payload-less
/// organization request is exactly the one found for any payload-bearing
/// organization request, whatever its payload — tags ignore payloads.
pub proof fn lemma_tag_only_dispatch<H>(entries: Seq<(LogicTag, H)>, action: OrganizationAction)
    ensures
        LogicRequest::Organization(Some(action)).spec_tag() == LogicRequest::Organization(
            None,
        ).spec_tag(),
        spec_lookup(entries, LogicRequest::Organization(Some(action)).spec_tag()) == spec_lookup(
            entries,
            LogicRequest::Organization(None).spec_tag(),
        ),
{
}

} // verus!
