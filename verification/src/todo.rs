//! Todo entries, their mathematical model, and the operations that add,
//! toggle and tombstone entries of an ordered todo sequence.

use crate::store::Action;
use crate::store::ActionModel;
use vstd::prelude::*;

verus! {

/// What a todo entry is, as a plain mathematical value.
pub struct TodoModel {
    pub id: int,
    pub title: Seq<char>,
    pub completed: bool,
    pub deleted: bool,
}

/// A single task entry. A deleted entry stays in its sequence as a tombstone.
#[derive(Debug, PartialEq, Eq)]
pub struct Todo {
    pub id: i16,
    pub title: String,
    pub completed: bool,
    pub deleted: bool,
}

impl View for Todo {
    type V = TodoModel;

    open spec fn view(&self) -> TodoModel {
        TodoModel {
            id: self.id as int,
            title: self.title@,
            completed: self.completed,
            deleted: self.deleted,
        }
    }
}

impl Clone for Todo {
    fn clone(&self) -> (copy: Self)
        ensures
            copy == *self,
    {
        Todo {
            id: self.id,
            title: self.title.clone(),
            completed: self.completed,
            deleted: self.deleted,
        }
    }
}

impl Todo {
    /// A fresh entry: neither completed nor deleted.
    pub fn new(id: i16, title: String) -> (todo: Todo)
        ensures
            todo.id == id,
            todo.title == title,
            todo.completed == false,
            todo.deleted == false,
            todo@ == fresh(id as int, title@),
    {
        Todo { id: id, title: title, completed: false, deleted: false }
    }
}

/// The model of a newly created entry.
pub open spec fn fresh(id: int, title: Seq<char>) -> TodoModel {
    TodoModel { id: id, title: title, completed: false, deleted: false }
}

/// The models of a sequence of entries, in order.
pub open spec fn models(todos: Seq<Todo>) -> Seq<TodoModel> {
    Seq::new(todos.len(), |i: int| todos[i]@)
}

/// `i` is the position of the first entry of `todos` whose id is `id`.
pub open spec fn is_first_match(todos: Seq<TodoModel>, id: int, i: int) -> bool {
    &&& 0 <= i < todos.len()
    &&& todos[i].id == id
    &&& forall|j: int| 0 <= j < i ==> (#[trigger] todos[j]).id != id
}

/// The position of the first entry whose id is `id`, if there is one.
/// Tombstoned entries are matched like any other.
pub open spec fn first_match(todos: Seq<TodoModel>, id: int) -> Option<int> {
    if exists|i: int| is_first_match(todos, id, i) {
        Some(choose|i: int| is_first_match(todos, id, i))
    } else {
        None
    }
}

/// A position that is the first match is the one that `first_match` gives:
/// no two positions are.
pub proof fn lemma_first_match_is(todos: Seq<TodoModel>, id: int, i: int)
    requires
        is_first_match(todos, id, i),
    ensures
        first_match(todos, id) == Some(i),
{
    let k = choose|k: int| is_first_match(todos, id, k);
    assert(is_first_match(todos, id, k));
    if k < i {
        assert(todos[k].id != id);
    } else if i < k {
        assert(todos[i].id != id);
    }
}

/// Without an entry of that id there is no first match.
pub proof fn lemma_first_match_none(todos: Seq<TodoModel>, id: int)
    requires
        forall|j: int| 0 <= j < todos.len() ==> (#[trigger] todos[j]).id != id,
    ensures
        first_match(todos, id) is None,
{
}

/// Looks up the first entry whose id is `todo_id` and hands it out for
/// modification.
pub fn get_mut_todo(todos: &mut Vec<Todo>, todo_id: i16) -> (found: Option<&mut Todo>)
    ensures
        found is Some <==> first_match(models(old(todos)@), todo_id as int) is Some,
        match found {
            Some(todo) => {
                let i = first_match(models(old(todos)@), todo_id as int)->0;
                &&& 0 <= i < old(todos)@.len()
                &&& *todo == old(todos)@[i]
                &&& final(todos)@ == old(todos)@.update(i, *final(todo))
            },
            None => final(todos)@ == old(todos)@,
        },
{
    let mut k: usize = 0;
    while k < todos.len()
        invariant
            k <= todos.len(),
            *todos == *old(todos),
            forall|j: int| 0 <= j < k ==> (#[trigger] models(todos@)[j]).id != todo_id as int,
        decreases todos.len() - k,
    {
        if todos[k].id == todo_id {
            proof {
                assert(models(todos@)[k as int].id == todo_id as int);
                lemma_first_match_is(models(todos@), todo_id as int, k as int);
            }
            return Some(&mut todos[k]);
        }
        k += 1;
    }
    proof {
        lemma_first_match_none(models(todos@), todo_id as int);
    }
    None
}

/// The requests that change the todo sequence.
#[derive(Debug, PartialEq, Eq)]
pub enum TodoAction {
    /// Append a new entry with this title.
    Add(String),
    /// Flip the `completed` flag of the first entry with this id.
    Toggle(i16),
    /// Tombstone the first entry with this id.
    Remove(i16),
}

/// What a `TodoAction` is, as a plain mathematical value.
pub enum TodoActionModel {
    Add(Seq<char>),
    Toggle(int),
    Remove(int),
}

impl View for TodoAction {
    type V = TodoActionModel;

    open spec fn view(&self) -> TodoActionModel {
        match *self {
            TodoAction::Add(title) => TodoActionModel::Add(title@),
            TodoAction::Toggle(id) => TodoActionModel::Toggle(id as int),
            TodoAction::Remove(id) => TodoActionModel::Remove(id as int),
        }
    }
}

impl Clone for TodoAction {
    fn clone(&self) -> (copy: Self)
        ensures
            copy == *self,
    {
        match self {
            TodoAction::Add(title) => TodoAction::Add(title.clone()),
            TodoAction::Toggle(id) => TodoAction::Toggle(*id),
            TodoAction::Remove(id) => TodoAction::Remove(*id),
        }
    }
}

/// The largest id an entry can carry, and so the longest sequence that can
/// still take one more entry.
pub const MAX_ID: i16 = 0x7fff;

/// `todo` with its `completed` flag flipped.
pub open spec fn toggled(todo: TodoModel) -> TodoModel {
    TodoModel { completed: !todo.completed, ..todo }
}

/// `todo` marked as completed.
pub open spec fn done(todo: TodoModel) -> TodoModel {
    TodoModel { completed: true, ..todo }
}

/// `todo` marked as deleted.
pub open spec fn tombstoned(todo: TodoModel) -> TodoModel {
    TodoModel { deleted: true, ..todo }
}

/// The sequence with one more entry at its end, whose id is the new length.
pub open spec fn with_added(todos: Seq<TodoModel>, title: Seq<char>) -> Seq<TodoModel> {
    todos.push(fresh(todos.len() as int + 1, title))
}

/// The sequence with the first entry of id `id` toggled; unchanged without one.
pub open spec fn with_toggled(todos: Seq<TodoModel>, id: int) -> Seq<TodoModel> {
    match first_match(todos, id) {
        Some(i) => todos.update(i, toggled(todos[i])),
        None => todos,
    }
}

/// The sequence with the first entry of id `id` completed; unchanged without one.
pub open spec fn with_done(todos: Seq<TodoModel>, id: int) -> Seq<TodoModel> {
    match first_match(todos, id) {
        Some(i) => todos.update(i, done(todos[i])),
        None => todos,
    }
}

/// The sequence with the first entry of id `id` tombstoned; unchanged without one.
pub open spec fn with_removed(todos: Seq<TodoModel>, id: int) -> Seq<TodoModel> {
    match first_match(todos, id) {
        Some(i) => todos.update(i, tombstoned(todos[i])),
        None => todos,
    }
}

/// What the todo reducer makes of a todo sequence under an action: only a
/// todo action changes it.
pub open spec fn todo_reduce(todos: Seq<TodoModel>, action: ActionModel) -> Seq<TodoModel> {
    match action {
        ActionModel::Todos(TodoActionModel::Add(title)) => with_added(todos, title),
        ActionModel::Todos(TodoActionModel::Toggle(id)) => with_toggled(todos, id),
        ActionModel::Todos(TodoActionModel::Remove(id)) => with_removed(todos, id),
        ActionModel::Visibility(_) => todos,
    }
}

/// Whether the sequence can take what `action` asks for: an added entry needs
/// an id that still fits.
pub open spec fn has_room(todos: Seq<TodoModel>, action: ActionModel) -> bool {
    action is Todos && action->Todos_0 is Add ==> todos.len() < MAX_ID
}

/// Appends a new entry titled `title`, with the new length as its id.
pub fn add_todo(todos: &mut Vec<Todo>, title: &str)
    requires
        old(todos)@.len() < MAX_ID,
    ensures
        models(final(todos)@) == with_added(models(old(todos)@), title@),
{
    let new_id: i16 = todos.len() as i16 + 1;
    todos.push(Todo { id: new_id, title: title.to_owned(), completed: false, deleted: false });
    assert(models(todos@) =~= with_added(models(old(todos)@), title@));
}

/// Tombstones the first entry whose id is `todo_id`, if there is one.
pub fn remove_todo(todos: &mut Vec<Todo>, todo_id: i16)
    ensures
        models(final(todos)@) == with_removed(models(old(todos)@), todo_id as int),
{
    if let Some(todo) = get_mut_todo(todos, todo_id) {
        todo.deleted = true;
    }
    assert(models(todos@) =~= with_removed(models(old(todos)@), todo_id as int));
}

/// Marks the first entry whose id is `todo_id` as completed, if there is one.
pub fn mark_done(todos: &mut Vec<Todo>, todo_id: i16)
    ensures
        models(final(todos)@) == with_done(models(old(todos)@), todo_id as int),
{
    if let Some(todo) = get_mut_todo(todos, todo_id) {
        todo.completed = true;
    }
    assert(models(todos@) =~= with_done(models(old(todos)@), todo_id as int));
}

/// The todo part of the reducer: a fresh sequence that is `state` with
/// `action` applied. An action that is no todo action yields an equal copy.
pub fn todo_reducer(state: &Vec<Todo>, action: &Action) -> (next: Vec<Todo>)
    requires
        has_room(models(state@), action@),
    ensures
        models(next@) == todo_reduce(models(state@), action@),
        action@ is Visibility ==> next@ == state@,
{
    let mut new_state: Vec<Todo> = state.clone();
    assert(new_state@ =~= state@);
    match action {
        Action::Todos(todo_action) => match todo_action {
            TodoAction::Add(title) => {
                let new_id: i16 = new_state.len() as i16 + 1;
                new_state.push(Todo::new(new_id, title.clone()));
            },
            TodoAction::Toggle(todo_id) => {
                if let Some(todo) = get_mut_todo(&mut new_state, *todo_id) {
                    if todo.completed {
                        todo.completed = false;
                    } else {
                        todo.completed = true;
                    }
                }
            },
            TodoAction::Remove(todo_id) => {
                if let Some(todo) = get_mut_todo(&mut new_state, *todo_id) {
                    todo.deleted = true;
                }
            },
        },
        Action::Visibility(_) => {},
    }
    assert(models(new_state@) =~= todo_reduce(models(state@), action@));
    new_state
}

} // verus!
