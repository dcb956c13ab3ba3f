//! What holds of the reducers for every state and every action, of what is
//! shown under a filter, and of the decimal writing of ids.

use crate::display::filter_named;
use crate::display::shown_by_name;
use crate::display::visible;
use crate::display::visible_under;
use crate::store::reduce;
use crate::store::visibility_reduce;
use crate::store::ActionModel;
use crate::store::StateModel;
use crate::store::VisibilityFilter;
use crate::text::all_digits;
use crate::text::decimal_text;
use crate::text::decimal_value;
use crate::text::id_of;
use crate::text::is_digit;
use crate::todo::first_match;
use crate::todo::fresh;
use crate::todo::is_first_match;
use crate::todo::lemma_first_match_is;
use crate::todo::todo_reduce;
use crate::todo::toggled;
use crate::todo::tombstoned;
use crate::todo::TodoActionModel;
use crate::todo::TodoModel;
use vstd::prelude::*;

verus! {

/// An action that is no todo action leaves the todo sequence as it is.
pub proof fn law_todo_reducer_ignores_other_actions(todos: Seq<TodoModel>, action: ActionModel)
    requires
        !(action is Todos),
    ensures
        todo_reduce(todos, action) == todos,
{
}

/// An action that is no visibility action leaves the filter as it is.
pub proof fn law_visibility_reducer_ignores_other_actions(
    filter: VisibilityFilter,
    action: ActionModel,
)
    requires
        !(action is Visibility),
    ensures
        visibility_reduce(filter, action) == filter,
{
}

/// A visibility action leads from any filter to the chosen one in one step.
pub proof fn law_any_filter_in_one_step(from: VisibilityFilter, to: VisibilityFilter)
    ensures
        visibility_reduce(from, ActionModel::Visibility(to)) == to,
{
}

/// Adding to a sequence of length `n` gives one of length `n + 1` that keeps
/// the entries it had and ends in a fresh entry with the given title and the
/// id `n + 1`.
pub proof fn law_add_appends_fresh_entry(todos: Seq<TodoModel>, title: Seq<char>)
    ensures
        ({
            let next = todo_reduce(todos, ActionModel::Todos(TodoActionModel::Add(title)));
            &&& next.len() == todos.len() + 1
            &&& next.take(todos.len() as int) == todos
            &&& next.last().title == title
            &&& next.last().completed == false
            &&& next.last().deleted == false
            &&& next.last().id == todos.len() + 1
            &&& next.last() == fresh(todos.len() as int + 1, title)
        }),
{
    let next = todo_reduce(todos, ActionModel::Todos(TodoActionModel::Add(title)));
    assert(next.take(todos.len() as int) =~= todos);
}

/// No action erases an entry or moves one, and none changes an id or a title.
pub proof fn law_entries_stay(todos: Seq<TodoModel>, action: ActionModel)
    ensures
        todo_reduce(todos, action).len() >= todos.len(),
        forall|j: int|
            0 <= j < todos.len() ==> (#[trigger] todo_reduce(todos, action)[j]).id == todos[j].id
                && todo_reduce(todos, action)[j].title == todos[j].title,
{
    match action {
        ActionModel::Todos(TodoActionModel::Toggle(id)) => {
            law_toggle_flips_first_match_only(todos, id);
        },
        ActionModel::Todos(TodoActionModel::Remove(id)) => {
            law_remove_tombstones_first_match_only(todos, id);
        },
        _ => {},
    }
}

/// A toggle changes at most the `completed` flag of the first entry with
/// that id, and nothing else anywhere.
pub proof fn law_toggle_flips_first_match_only(todos: Seq<TodoModel>, id: int)
    ensures
        ({
            let next = todo_reduce(todos, ActionModel::Todos(TodoActionModel::Toggle(id)));
            &&& next.len() == todos.len()
            &&& forall|j: int|
                0 <= j < todos.len() ==> #[trigger] next[j] == if first_match(todos, id) == Some(j) {
                    toggled(todos[j])
                } else {
                    todos[j]
                }
        }),
{
    if first_match(todos, id) is Some {
        assert(is_first_match(todos, id, first_match(todos, id)->0));
    }
}

/// Two toggles of one id in a row give back the sequence they started from:
/// the `completed` flag returns to its value and no other field changes.
pub proof fn law_toggle_twice_restores(todos: Seq<TodoModel>, id: int)
    ensures
        ({
            let toggle = ActionModel::Todos(TodoActionModel::Toggle(id));
            todo_reduce(todo_reduce(todos, toggle), toggle) == todos
        }),
{
    let toggle = ActionModel::Todos(TodoActionModel::Toggle(id));
    let once = todo_reduce(todos, toggle);
    if first_match(todos, id) is Some {
        let i = first_match(todos, id)->0;
        assert(is_first_match(todos, id, i));
        assert(once == todos.update(i, toggled(todos[i])));
        assert(is_first_match(once, id, i)) by {
            assert forall|j: int| 0 <= j < i implies (#[trigger] once[j]).id != id by {
                assert(todos[j].id != id);
            }
        }
        lemma_first_match_is(once, id, i);
        assert(todo_reduce(once, toggle) =~= todos);
    } else {
        assert(once == todos);
    }
}

/// A removal tombstones the first entry with that id and changes no other
/// entry and no other field; without such an entry nothing changes.
pub proof fn law_remove_tombstones_first_match_only(todos: Seq<TodoModel>, id: int)
    ensures
        ({
            let next = todo_reduce(todos, ActionModel::Todos(TodoActionModel::Remove(id)));
            &&& next.len() == todos.len()
            &&& forall|j: int|
                0 <= j < todos.len() ==> #[trigger] next[j] == if first_match(todos, id) == Some(j) {
                    tombstoned(todos[j])
                } else {
                    todos[j]
                }
            &&& first_match(todos, id) is Some ==> next[first_match(todos, id)->0].deleted
            &&& first_match(todos, id) is None ==> next == todos
        }),
{
    if first_match(todos, id) is Some {
        assert(is_first_match(todos, id, first_match(todos, id)->0));
    }
}

/// After a switch to `ShowActive` the todo sequence is as before, and the
/// entries shown are exactly its entries that are neither completed nor
/// deleted.
pub proof fn law_show_active_shows_active_only(state: StateModel)
    ensures
        ({
            let next = reduce(state, ActionModel::Visibility(VisibilityFilter::ShowActive));
            let shown = visible_under(next.todos, next.visibility_filter);
            &&& next.todos == state.todos
            &&& next.visibility_filter == VisibilityFilter::ShowActive
            &&& forall|todo: TodoModel|
                #[trigger] shown.contains(todo) <==> state.todos.contains(todo) && !todo.completed
                    && !todo.deleted
        }),
{
    let next = reduce(state, ActionModel::Visibility(VisibilityFilter::ShowActive));
    let pred = |todo: TodoModel| visible(todo, VisibilityFilter::ShowActive);
    let shown = state.todos.filter(pred);
    assert(shown == visible_under(next.todos, next.visibility_filter));
    assert forall|todo: TodoModel| #[trigger]
        shown.contains(todo) <==> state.todos.contains(todo) && !todo.completed
            && !todo.deleted by {
        if shown.contains(todo) {
            state.todos.lemma_filter_contains_rev(pred, todo);
        }
        if state.todos.contains(todo) && !todo.completed && !todo.deleted {
            let i = choose|i: int| 0 <= i < state.todos.len() && state.todos[i] == todo;
            state.todos.lemma_filter_contains(pred, i);
        }
    }
}

/// Showing by the filter's name follows the same rule as showing by the
/// filter: an entry is shown under a name exactly when the name is a
/// filter's and the entry is visible under that filter.
pub proof fn law_shown_by_name_is_visible(name: Seq<char>, todo: TodoModel)
    ensures
        shown_by_name(name, todo.completed, todo.deleted) <==> filter_named(name) is Some
            && visible(todo, filter_named(name)->0),
        todo.deleted ==> !shown_by_name(name, todo.completed, todo.deleted),
{
}

/// Each filter is the one that its own name stands for.
pub proof fn law_filter_names()
    ensures
        filter_named("ShowAll"@) == Some(VisibilityFilter::ShowAll),
        filter_named("ShowActive"@) == Some(VisibilityFilter::ShowActive),
        filter_named("ShowCompleted"@) == Some(VisibilityFilter::ShowCompleted),
{
    reveal_strlit("ShowAll");
    reveal_strlit("ShowActive");
    reveal_strlit("ShowCompleted");
    assert("ShowAll"@.len() == 7);
    assert("ShowActive"@.len() == 10);
    assert("ShowCompleted"@.len() == 13);
}

/// Under the name `ShowActive` exactly the entries that are neither completed
/// nor deleted are shown; under `ShowCompleted` those that are completed and
/// not deleted; under `ShowAll` those that are not deleted.
pub proof fn law_shown_by_each_name(completed: bool, deleted: bool)
    ensures
        shown_by_name("ShowActive"@, completed, deleted) <==> !completed && !deleted,
        shown_by_name("ShowCompleted"@, completed, deleted) <==> completed && !deleted,
        shown_by_name("ShowAll"@, completed, deleted) <==> !deleted,
{
    law_filter_names();
}

/// No filter shows a deleted entry, and `ShowAll` shows every other.
pub proof fn law_deleted_never_shown(todo: TodoModel, filter: VisibilityFilter)
    ensures
        todo.deleted ==> !visible(todo, filter),
        visible(todo, VisibilityFilter::ShowAll) <==> !todo.deleted,
{
}

/// The decimal writing of a number is a run of digits that writes that number.
pub proof fn law_decimal_text_writes_its_number(n: nat)
    ensures
        decimal_text(n).len() > 0,
        all_digits(decimal_text(n)),
        decimal_value(decimal_text(n)) == n,
    decreases n,
{
    let text = decimal_text(n);
    if n < 10 {
        assert(text.drop_last() =~= Seq::<char>::empty());
        assert(decimal_value(text.drop_last()) == 0);
    } else {
        law_decimal_text_writes_its_number(n / 10);
        assert(text.drop_last() =~= decimal_text(n / 10));
        assert forall|i: int| 0 <= i < text.len() implies is_digit(#[trigger] text[i]) by {
            if i < text.len() - 1 {
                assert(text[i] == decimal_text(n / 10)[i]);
            }
        }
    }
}

/// An id that is not negative is read back from its decimal writing.
pub proof fn law_id_read_back_from_decimal_text(id: i16)
    requires
        id >= 0,
    ensures
        id_of(decimal_text(id as nat)) == Some(id),
{
    law_decimal_text_writes_its_number(id as nat);
    assert(is_digit(decimal_text(id as nat)[0]));
}

} // verus!
