use vstd::prelude::*;
use std::collections::HashMap;

verus! {

broadcast use vstd::std_specs::hash::group_hash_axioms;

/// An opaque token that ties a request handed to the shell to the one
/// response the shell owes for it.
#[derive(Clone, Copy, Debug, PartialEq, Eq, Structural)]
pub struct RequestId {
    pub id: u64,
}

/// The requests that wait for a response, each with the continuation that
/// the response resumes.
///
/// Identifiers come from a counter that only grows, so an identifier is
/// handed out once and, once consumed, never comes back.
pub struct PendingRequests<C> {
    waiting: HashMap<u64, C>,
    next: u64,
}

impl<C> PendingRequests<C> {
    /// The continuations that wait, by identifier.
    pub closed spec fn pending(&self) -> Map<u64, C> {
        self.waiting@
    }

    /// Every identifier below this one has been handed out.
    pub closed spec fn issued_below(&self) -> nat {
        self.next as nat
    }

    /// Every identifier that waits was handed out.
    pub closed spec fn wf(&self) -> bool {
        forall|k: u64| #[trigger] self.waiting@.contains_key(k) ==> k < self.next
    }

    /// A table with nothing pending.
    pub fn new() -> (r: PendingRequests<C>)
        ensures
            r.wf(),
            r.pending() == Map::<u64, C>::empty(),
            r.issued_below() == 0,
    {
        PendingRequests { waiting: HashMap::new(), next: 0 }
    }

    /// Whether `id` waits for a response.
    pub fn is_pending(&self, id: RequestId) -> (r: bool)
        ensures
            r == self.pending().contains_key(id.id),
    {
        self.waiting.contains_key(&id.id)
    }

    /// How many requests wait for a response.
    pub fn len(&self) -> (r: usize)
        ensures
            r == self.pending().len(),
    {
        self.waiting.len()
    }

    /// Stores `cont` under a fresh identifier and returns that identifier;
    /// `None`, with nothing changed, once every identifier has been used.
    pub fn issue(&mut self, cont: C) -> (r: Option<RequestId>)
        requires
            old(self).wf(),
        ensures
            final(self).wf(),
            r is None <==> old(self).issued_below() == u64::MAX,
            r is None ==> *final(self) == *old(self),
            r matches Some(id) ==> {
                &&& id.id == old(self).issued_below()
                &&& !old(self).pending().contains_key(id.id)
                &&& final(self).pending() == old(self).pending().insert(id.id, cont)
                &&& final(self).issued_below() == old(self).issued_below() + 1
            },
    {
        if self.next == u64::MAX {
            return None;
        }
        let id = self.next;
        self.next = id + 1;
        self.waiting.insert(id, cont);
        Some(RequestId { id })
    }

    /// Takes out the continuation stored under `id`: it is consumed, and a
    /// later call with the same identifier finds nothing. An identifier that
    /// does not wait (unknown, forged or already consumed) gives `None` and
    /// changes nothing.
    pub fn resume(&mut self, id: RequestId) -> (r: Option<C>)
        requires
            old(self).wf(),
        ensures
            final(self).wf(),
            final(self).issued_below() == old(self).issued_below(),
            old(self).pending().contains_key(id.id) ==> {
                &&& r == Some(old(self).pending()[id.id])
                &&& final(self).pending() == old(self).pending().remove(id.id)
            },
            !old(self).pending().contains_key(id.id) ==> {
                &&& r is None
                &&& final(self).pending() == old(self).pending()
            },
    {
        self.waiting.remove(&id.id)
    }
}

/// A response that arrives twice for one identifier resumes at most once:
/// whatever a resume of `id` found, afterwards nothing waits under `id`, so
/// a second resume of `id` returns `None` and changes nothing.
pub proof fn lemma_resume_consumes_once<C>(
    before: PendingRequests<C>,
    after: PendingRequests<C>,
    id: RequestId,
)
    requires
        before.pending().contains_key(id.id) ==> after.pending() == before.pending().remove(
            id.id,
        ),
        !before.pending().contains_key(id.id) ==> after.pending() == before.pending(),
    ensures
        !after.pending().contains_key(id.id),
{
}

} // verus!
