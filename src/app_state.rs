use vstd::prelude::*;
use crate::request::{lemma_resume_consumes_once, PendingRequests, RequestId};
use crate::todo_list::{
    apply, effects_of, outcome, process_mod_event, process_query, view, view_of, Effect,
    EffectModel, Event, Query, TodoListModel, ViewModel,
};

verus! {

/// The live state of the application: the model, and the events that wait
/// for a response from the shell before they run.
///
/// The shell owns one value of this type and passes it to every entry point.
pub struct Core {
    model: TodoListModel,
    requests: PendingRequests<Event>,
}

impl Core {
    /// The items of the list.
    pub closed spec fn items(&self) -> Seq<Seq<char>> {
        self.model@
    }

    /// The deferred events that wait, by identifier.
    pub closed spec fn pending(&self) -> Map<u64, Event> {
        self.requests.pending()
    }

    /// Every identifier below this one has been handed out.
    pub closed spec fn issued_below(&self) -> nat {
        self.requests.issued_below()
    }

    pub closed spec fn wf(&self) -> bool {
        self.requests.wf()
    }

    /// Starts with an empty list and nothing pending.
    pub fn init() -> (r: Core)
        ensures
            r.wf(),
            r.items() == Seq::<Seq<char>>::empty(),
            r.pending() == Map::<u64, Event>::empty(),
            r.issued_below() == 0,
    {
        Core { model: TodoListModel::new(), requests: PendingRequests::new() }
    }

    /// Starts from `model`, with nothing pending.
    pub fn with_model(model: TodoListModel) -> (r: Core)
        ensures
            r.wf(),
            r.items() == model@,
            r.pending() == Map::<u64, Event>::empty(),
            r.issued_below() == 0,
    {
        Core { model, requests: PendingRequests::new() }
    }

    /// Carries out `event` now; see `process_mod_event`.
    pub fn process_event(&mut self, event: Event) -> (r: Vec<Effect>)
        requires
            old(self).wf(),
        ensures
            final(self).wf(),
            final(self).items() == apply(old(self).items(), event),
            final(self).pending() == old(self).pending(),
            final(self).issued_below() == old(self).issued_below(),
            effects_of(r@) == seq![outcome(old(self).items(), event)],
    {
        process_mod_event(event, &mut self.model)
    }

    /// Answers `query`; see `process_query`.
    pub fn process_query(&self, query: Query) -> (r: Vec<Effect>)
        ensures
            effects_of(r@) == seq![EffectModel::Render(view_of(self.items()))],
    {
        process_query(query, &self.model)
    }

    /// The current snapshot.
    pub fn view(&self) -> (r: ViewModel)
        ensures
            r@ == view_of(self.items()),
    {
        view(&self.model)
    }

    /// Defers `then` until the shell responds: stores it under a fresh
    /// identifier and returns that identifier with the effect that hands it
    /// to the shell. `None`, with nothing changed, once every identifier has
    /// been used.
    pub fn issue(&mut self, then: Event) -> (r: Option<(RequestId, Effect)>)
        requires
            old(self).wf(),
        ensures
            final(self).wf(),
            final(self).items() == old(self).items(),
            r is None <==> old(self).issued_below() == u64::MAX,
            r is None ==> final(self).pending() == old(self).pending() && final(self).issued_below()
                == old(self).issued_below(),
            r matches Some((id, effect)) ==> {
                &&& id.id == old(self).issued_below()
                &&& !old(self).pending().contains_key(id.id)
                &&& final(self).issued_below() == old(self).issued_below() + 1
                &&& final(self).pending() == old(self).pending().insert(id.id, then)
                &&& effect@ == EffectModel::Await(id)
            },
    {
        match self.requests.issue(then) {
            Some(id) => Some((id, Effect::Await(id))),
            None => None,
        }
    }

    /// Routes the shell's response under `id` to the event that waits for
    /// it: the event is consumed and carried out, and its effects returned.
    /// An identifier that does not wait (unknown, or already answered) is a
    /// stale response: no effects, and nothing changes.
    pub fn resume(&mut self, id: RequestId) -> (r: Vec<Effect>)
        requires
            old(self).wf(),
        ensures
            final(self).wf(),
            final(self).issued_below() == old(self).issued_below(),
            old(self).pending().contains_key(id.id) ==> {
                let event = old(self).pending()[id.id];
                &&& final(self).pending() == old(self).pending().remove(id.id)
                &&& final(self).items() == apply(old(self).items(), event)
                &&& effects_of(r@) == seq![outcome(old(self).items(), event)]
            },
            !old(self).pending().contains_key(id.id) ==> {
                &&& final(self).pending() == old(self).pending()
                &&& final(self).items() == old(self).items()
                &&& r@.len() == 0
            },
    {
        match self.requests.resume(id) {
            Some(event) => process_mod_event(event, &mut self.model),
            None => Vec::new(),
        }
    }
}

/// A response delivered twice runs its event once: after a resume of `id`,
/// whatever it found, nothing waits under `id`, so by the contract of
/// `resume` a second call with `id` returns no effects and changes nothing.
pub proof fn lemma_second_resume_is_stale(before: Core, after: Core, id: RequestId)
    requires
        before.pending().contains_key(id.id) ==> after.pending() == before.pending().remove(
            id.id,
        ),
        !before.pending().contains_key(id.id) ==> after.pending() == before.pending(),
    ensures
        !after.pending().contains_key(id.id),
{
    lemma_resume_consumes_once(before.requests, after.requests, id);
}

} // verus!
