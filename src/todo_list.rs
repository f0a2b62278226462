use vstd::prelude::*;
use crate::request::RequestId;

verus! {

/// The characters of each item, in order.
pub open spec fn texts(items: Seq<String>) -> Seq<Seq<char>> {
    items.map_values(|s: String| s@)
}

/// The domain state: the todo items, in the order they were added.
pub struct TodoListModel {
    pub items: Vec<String>,
}

impl View for TodoListModel {
    type V = Seq<Seq<char>>;

    open spec fn view(&self) -> Seq<Seq<char>> {
        texts(self.items@)
    }
}

impl TodoListModel {
    /// An empty list.
    pub fn new() -> (r: TodoListModel)
        ensures
            r@ == Seq::<Seq<char>>::empty(),
    {
        TodoListModel { items: Vec::new() }
    }
}

impl Default for TodoListModel {
    fn default() -> (r: TodoListModel)
        ensures
            r@ == Seq::<Seq<char>>::empty(),
    {
        TodoListModel::new()
    }
}

/// A read-only snapshot of the model for presentation.
#[derive(Debug)]
pub struct ViewModel {
    pub items: Vec<String>,
    pub count: usize,
}

/// What a snapshot of the items `items` holds: the items and their number.
pub open spec fn view_of(items: Seq<Seq<char>>) -> (Seq<Seq<char>>, nat) {
    (items, items.len())
}

impl View for ViewModel {
    type V = (Seq<Seq<char>>, nat);

    open spec fn view(&self) -> (Seq<Seq<char>>, nat) {
        (texts(self.items@), self.count as nat)
    }
}

/// Compares two lists of strings character by character.
fn same_texts(a: &Vec<String>, b: &Vec<String>) -> (r: bool)
    ensures
        r == (texts(a@) == texts(b@)),
{
    if a.len() != b.len() {
        proof {
            assert(texts(a@).len() != texts(b@).len());
        }
        return false;
    }
    let mut i: usize = 0;
    while i < a.len()
        invariant
            a.len() == b.len(),
            0 <= i <= a.len(),
            forall|j: int| 0 <= j < i ==> a@[j]@ == b@[j]@,
        decreases a.len() - i,
    {
        if a[i] != b[i] {
            proof {
                assert(texts(a@)[i as int] != texts(b@)[i as int]);
            }
            return false;
        }
        i = i + 1;
    }
    proof {
        assert(texts(a@) =~= texts(b@));
    }
    true
}

impl PartialEq for ViewModel {
    fn eq(&self, o: &ViewModel) -> (r: bool) {
        self.count == o.count && same_texts(&self.items, &o.items)
    }
}

impl vstd::std_specs::cmp::PartialEqSpecImpl for ViewModel {
    open spec fn obeys_eq_spec() -> bool {
        true
    }

    open spec fn eq_spec(&self, o: &ViewModel) -> bool {
        self@ == o@
    }
}

impl Eq for ViewModel {}

/// The snapshot of `model`: a copy of its items and their number.
pub fn view(model: &TodoListModel) -> (r: ViewModel)
    ensures
        r.items@ == model.items@,
        r.count == model.items.len(),
        r@ == view_of(model@),
{
    let count = model.items.len();
    let items = model.items.clone();
    proof {
        assert(items@ =~= model.items@);
    }
    ViewModel { items, count }
}

/// A request to change the list.
#[derive(Debug, PartialEq, Eq)]
pub enum Event {
    /// Appends an item.
    AddTodo(String),
    /// Removes the item at a 1-based position.
    RemoveTodo(usize),
    /// Removes every item.
    CleanList,
}

/// A read-only request.
#[derive(Clone, Copy, Debug, PartialEq, Eq, Structural)]
pub enum Query {
    /// The current snapshot.
    GetModel,
}

/// Why an event was turned down without changing the list.
#[derive(Clone, Copy, Debug, PartialEq, Eq, Structural)]
pub enum Rejection {
    /// The 1-based `position` names no item of a list of `len` items.
    NoSuchPosition { position: usize, len: usize },
}

/// A request to the shell.
#[derive(Debug)]
pub enum Effect {
    /// Show this snapshot; no response is owed.
    Render(ViewModel),
    /// The event was turned down and the list left as it was.
    Rejected(Rejection),
    /// The shell owes exactly one response under this identifier.
    Await(RequestId),
}

/// What an effect holds, with the items as characters.
pub enum EffectModel {
    Render((Seq<Seq<char>>, nat)),
    Rejected(Rejection),
    Await(RequestId),
}

impl View for Effect {
    type V = EffectModel;

    open spec fn view(&self) -> EffectModel {
        match self {
            Effect::Render(v) => EffectModel::Render(v@),
            Effect::Rejected(r) => EffectModel::Rejected(*r),
            Effect::Await(id) => EffectModel::Await(*id),
        }
    }
}

/// The effects of a list, each as what it holds.
pub open spec fn effects_of(effects: Seq<Effect>) -> Seq<EffectModel> {
    effects.map_values(|e: Effect| e@)
}

impl PartialEq for Effect {
    fn eq(&self, o: &Effect) -> (r: bool) {
        match (self, o) {
            (Effect::Render(a), Effect::Render(b)) => a == b,
            (Effect::Rejected(a), Effect::Rejected(b)) => a == b,
            (Effect::Await(a), Effect::Await(b)) => a == b,
            _ => false,
        }
    }
}

impl vstd::std_specs::cmp::PartialEqSpecImpl for Effect {
    open spec fn obeys_eq_spec() -> bool {
        true
    }

    open spec fn eq_spec(&self, o: &Effect) -> bool {
        self@ == o@
    }
}

impl Eq for Effect {}

/// Whether a 1-based `position` names an item of a list of `len` items.
pub open spec fn valid_position(position: int, len: int) -> bool {
    1 <= position <= len
}

/// The list after `event` on `items`: a rejected event leaves it as it was.
pub open spec fn apply(items: Seq<Seq<char>>, event: Event) -> Seq<Seq<char>> {
    match event {
        Event::AddTodo(todo) => items.push(todo@),
        Event::RemoveTodo(position) => if valid_position(position as int, items.len() as int) {
            items.remove(position - 1)
        } else {
            items
        },
        Event::CleanList => Seq::empty(),
    }
}

/// The one effect that `event` on `items` produces: a snapshot of the new
/// list, or the reason a removal was turned down.
pub open spec fn outcome(items: Seq<Seq<char>>, event: Event) -> EffectModel {
    match event {
        Event::RemoveTodo(position) if !valid_position(position as int, items.len() as int) => {
            EffectModel::Rejected(Rejection::NoSuchPosition { position, len: items.len() as usize })
        },
        _ => EffectModel::Render(view_of(apply(items, event))),
    }
}

/// Carries out `event` on `model` and returns the effects for the shell: a
/// snapshot of the new list, or a rejection that leaves the list as it was
/// when a removal names no item.
pub fn process_mod_event(event: Event, model: &mut TodoListModel) -> (r: Vec<Effect>)
    ensures
        final(model)@ == apply(old(model)@, event),
        effects_of(r@) == seq![outcome(old(model)@, event)],
{
    let ghost e = event;
    let ghost before = model@;
    match event {
        Event::AddTodo(todo) => {
            model.items.push(todo);
            proof {
                assert(model@ =~= before.push(todo@));
            }
        },
        Event::RemoveTodo(todo_pos) => {
            let len = model.items.len();
            if todo_pos == 0 || todo_pos > len {
                let r = vec![Effect::Rejected(Rejection::NoSuchPosition { position: todo_pos, len })];
                proof {
                    assert(effects_of(r@) =~= seq![outcome(before, e)]);
                }
                return r;
            }
            model.items.remove(todo_pos - 1);
            proof {
                assert(model@ =~= before.remove(todo_pos - 1));
            }
        },
        Event::CleanList => {
            model.items = Vec::new();
            proof {
                assert(model@ =~= Seq::<Seq<char>>::empty());
            }
        },
    }
    let r = vec![Effect::Render(view(model))];
    proof {
        assert(effects_of(r@) =~= seq![outcome(before, e)]);
    }
    r
}

/// Answers `query` from `model`, which it leaves untouched.
pub fn process_query(query: Query, model: &TodoListModel) -> (r: Vec<Effect>)
    ensures
        effects_of(r@) == seq![EffectModel::Render(view_of(model@))],
{
    match query {
        Query::GetModel => {
            let r = vec![Effect::Render(view(model))];
            proof {
                assert(effects_of(r@) =~= seq![EffectModel::Render(view_of(model@))]);
            }
            r
        },
    }
}

/// An add appends exactly one item, and the snapshot it renders holds the
/// new list and its length.
pub proof fn lemma_add_appends_one(items: Seq<Seq<char>>, todo: String)
    ensures
        apply(items, Event::AddTodo(todo)) == items.push(todo@),
        apply(items, Event::AddTodo(todo)).len() == items.len() + 1,
        outcome(items, Event::AddTodo(todo)) == EffectModel::Render(
            (items.push(todo@), items.len() + 1),
        ),
{
}

/// Removing the only item at position 1 leaves an empty list and renders an
/// empty snapshot.
pub proof fn lemma_remove_only_item(items: Seq<Seq<char>>)
    requires
        items.len() == 1,
    ensures
        apply(items, Event::RemoveTodo(1)) == Seq::<Seq<char>>::empty(),
        outcome(items, Event::RemoveTodo(1)) == EffectModel::Render(
            (Seq::<Seq<char>>::empty(), 0nat),
        ),
{
    assert(items.remove(0) =~= Seq::<Seq<char>>::empty());
}

/// Clearing any list, empty or not, leaves an empty list and renders an
/// empty snapshot; clearing again changes nothing.
pub proof fn lemma_clean_empties(items: Seq<Seq<char>>)
    ensures
        apply(items, Event::CleanList) == Seq::<Seq<char>>::empty(),
        outcome(items, Event::CleanList) == EffectModel::Render((Seq::<Seq<char>>::empty(), 0nat)),
        apply(apply(items, Event::CleanList), Event::CleanList) == apply(items, Event::CleanList),
{
}

/// A removal at position 0, or past the end, leaves the list as it was and
/// is answered with a rejection that names the position and the length.
pub proof fn lemma_bad_position_rejected(items: Seq<Seq<char>>, position: usize)
    requires
        position == 0 || position > items.len(),
    ensures
        apply(items, Event::RemoveTodo(position)) == items,
        outcome(items, Event::RemoveTodo(position)) == EffectModel::Rejected(
            Rejection::NoSuchPosition { position, len: items.len() as usize },
        ),
{
}

} // verus!
