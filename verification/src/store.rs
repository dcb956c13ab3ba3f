//! The application state, the actions that change it, the reducers that
//! derive the next state, and the store that owns the state.

use crate::todo::has_room;
use crate::todo::models;
use crate::todo::todo_reduce;
use crate::todo::todo_reducer;
use crate::todo::Todo;
use crate::todo::TodoAction;
use crate::todo::TodoActionModel;
use crate::todo::TodoModel;
use vstd::prelude::*;

verus! {

/// Which entries a presentation of the state shows.
#[derive(Clone, Copy, Debug, PartialEq, Eq, Structural)]
pub enum VisibilityFilter {
    /// Entries that are neither completed nor deleted.
    ShowActive,
    /// Every entry that is not deleted.
    ShowAll,
    /// Entries that are completed and not deleted.
    ShowCompleted,
}

/// The whole application snapshot: the todo sequence in insertion order and
/// the active filter.
#[derive(Debug, PartialEq, Eq)]
pub struct State {
    pub todos: Vec<Todo>,
    pub visibility_filter: VisibilityFilter,
}

/// What a `State` is, as a plain mathematical value.
pub struct StateModel {
    pub todos: Seq<TodoModel>,
    pub visibility_filter: VisibilityFilter,
}

impl View for State {
    type V = StateModel;

    open spec fn view(&self) -> StateModel {
        StateModel { todos: models(self.todos@), visibility_filter: self.visibility_filter }
    }
}

/// The state a store starts from: no entries, shown under `ShowAll`.
pub open spec fn initial_state() -> StateModel {
    StateModel { todos: Seq::empty(), visibility_filter: VisibilityFilter::ShowAll }
}

impl State {
    /// The default state: an empty todo sequence under `ShowAll`.
    pub fn default() -> (state: State)
        ensures
            state@ == initial_state(),
            state.todos@.len() == 0,
    {
        let state = State { todos: Vec::new(), visibility_filter: VisibilityFilter::ShowAll };
        assert(state@.todos =~= Seq::empty());
        state
    }
}

impl Clone for State {
    fn clone(&self) -> (copy: Self)
        ensures
            copy.todos@ == self.todos@,
            copy.visibility_filter == self.visibility_filter,
            copy@ == self@,
    {
        let todos = self.todos.clone();
        assert(todos@ =~= self.todos@);
        State { todos: todos, visibility_filter: self.visibility_filter }
    }
}

/// A request to change the state: either the todo sequence or the filter.
#[derive(Debug, PartialEq, Eq)]
pub enum Action {
    Todos(TodoAction),
    Visibility(VisibilityFilter),
}

/// What an `Action` is, as a plain mathematical value.
pub enum ActionModel {
    Todos(TodoActionModel),
    Visibility(VisibilityFilter),
}

impl View for Action {
    type V = ActionModel;

    open spec fn view(&self) -> ActionModel {
        match *self {
            Action::Todos(todo_action) => ActionModel::Todos(todo_action@),
            Action::Visibility(filter) => ActionModel::Visibility(filter),
        }
    }
}

impl Clone for Action {
    fn clone(&self) -> (copy: Self)
        ensures
            copy == *self,
    {
        match self {
            Action::Todos(todo_action) => Action::Todos(todo_action.clone()),
            Action::Visibility(filter) => Action::Visibility(*filter),
        }
    }
}

/// What the visibility reducer makes of a filter under an action: a
/// visibility action replaces it, any other leaves it.
pub open spec fn visibility_reduce(filter: VisibilityFilter, action: ActionModel) -> VisibilityFilter {
    match action {
        ActionModel::Visibility(chosen) => chosen,
        ActionModel::Todos(_) => filter,
    }
}

/// The state that follows `state` under `action`: each part reduced on its own.
pub open spec fn reduce(state: StateModel, action: ActionModel) -> StateModel {
    StateModel {
        todos: todo_reduce(state.todos, action),
        visibility_filter: visibility_reduce(state.visibility_filter, action),
    }
}

/// The visibility part of the reducer.
pub fn visibility_reducer(state: &VisibilityFilter, action: &Action) -> (next: VisibilityFilter)
    ensures
        next == visibility_reduce(*state, action@),
        action@ is Todos ==> next == *state,
{
    match action {
        Action::Visibility(vis_action) => *vis_action,
        Action::Todos(_) => *state,
    }
}

/// The root reducer: a new state whose todo sequence and filter are what the
/// two part reducers make of the action. The given state is left as it was.
pub fn reducer(state: &State, action: Action) -> (next: State)
    requires
        has_room(state@.todos, action@),
    ensures
        next@ == reduce(state@, action@),
{
    State {
        todos: todo_reducer(&state.todos, &action),
        visibility_filter: visibility_reducer(&state.visibility_filter, &action),
    }
}

/// Owns the current state, routes every change through one reducer, and
/// tells its listeners of each new state, in the order they subscribed.
pub struct Store<R: Fn(&State, Action) -> State, L: Fn(&State)> {
    state: State,
    listeners: Vec<L>,
    reducer: R,
}

impl<R: Fn(&State, Action) -> State, L: Fn(&State)> Store<R, L> {
    /// The state the store holds.
    pub closed spec fn current(&self) -> State {
        self.state
    }

    /// The listeners, in subscription order.
    pub closed spec fn listeners(&self) -> Seq<L> {
        self.listeners@
    }

    /// The reducer the store was created with.
    pub closed spec fn bound_reducer(&self) -> R {
        self.reducer
    }

    /// Whether the store can take `action`: the reducer accepts it on the
    /// current state, and every listener accepts each state that the reducer
    /// may then return.
    pub open spec fn accepts(&self, action: Action) -> bool {
        &&& call_requires(self.bound_reducer(), (&self.current(), action))
        &&& forall|i: int, next: State|
            0 <= i < self.listeners().len() && call_ensures(
                self.bound_reducer(),
                (&self.current(), action),
                next,
            ) ==> #[trigger] call_requires(self.listeners()[i], (&next,))
    }

    /// A store in the default state, with no listener, bound to `reducer`.
    pub fn create_store(reducer: R) -> (store: Self)
        ensures
            store.current()@ == initial_state(),
            store.listeners() == Seq::<L>::empty(),
            store.bound_reducer() == reducer,
    {
        Store { state: State::default(), listeners: Vec::new(), reducer: reducer }
    }

    /// Adds `listener` behind the listeners already there.
    pub fn subscribe(&mut self, listener: L)
        ensures
            final(self).listeners() == old(self).listeners().push(listener),
            final(self).listeners().len() == old(self).listeners().len() + 1,
            final(self).listeners().last() == listener,
            final(self).current() == old(self).current(),
            final(self).bound_reducer() == old(self).bound_reducer(),
    {
        self.listeners.push(listener);
    }

    /// The current state, read-only.
    pub fn get_state(&self) -> (state: &State)
        ensures
            *state == self.current(),
    {
        &self.state
    }

    /// Replaces the state by what the reducer makes of it under `action`,
    /// then calls every listener on the new state, first subscribed first.
    pub fn dispatch(&mut self, action: Action)
        requires
            old(self).accepts(action),
        ensures
            call_ensures(
                old(self).bound_reducer(),
                (&old(self).current(), action),
                final(self).current(),
            ),
            final(self).listeners() == old(self).listeners(),
            final(self).bound_reducer() == old(self).bound_reducer(),
            forall|i: int|
                0 <= i < final(self).listeners().len() ==> call_ensures(
                    #[trigger] final(self).listeners()[i],
                    (&final(self).current(),),
                    (),
                ),
    {
        assert(self.listeners@ == old(self).listeners());
        self.state = (self.reducer)(&self.state, action);
        let mut k: usize = 0;
        while k < self.listeners.len()
            invariant
                k <= self.listeners@.len(),
                forall|i: int|
                    0 <= i < self.listeners@.len() ==> #[trigger] call_requires(
                        self.listeners@[i],
                        (&self.state,),
                    ),
                forall|i: int|
                    0 <= i < k ==> call_ensures(
                        #[trigger] self.listeners@[i],
                        (&self.state,),
                        (),
                    ),
            decreases self.listeners@.len() - k,
        {
            (self.listeners[k])(&self.state);
            k += 1;
        }
    }
}

} // verus!
