//! What a presentation of the state shows: which entries are visible under a
//! filter, how many are still to do, and which filter is the selected one.

use crate::store::State;
use crate::store::VisibilityFilter;
use crate::text::decimal;
use crate::text::decimal_text;
use crate::text::same_text;
use crate::todo::models;
use crate::todo::Todo;
use crate::todo::TodoModel;
use vstd::prelude::*;
use vstd::string::StringExecFns;

verus! {

/// Whether an entry of that completion is shown under `filter`, leaving
/// deletion aside.
pub open spec fn shows_completion(filter: VisibilityFilter, completed: bool) -> bool {
    match filter {
        VisibilityFilter::ShowAll => true,
        VisibilityFilter::ShowCompleted => completed,
        VisibilityFilter::ShowActive => !completed,
    }
}

/// Whether `todo` is shown under `filter`. A deleted entry never is.
pub open spec fn visible(todo: TodoModel, filter: VisibilityFilter) -> bool {
    !todo.deleted && shows_completion(filter, todo.completed)
}

/// The entries shown under `filter`, in their order.
pub open spec fn visible_under(todos: Seq<TodoModel>, filter: VisibilityFilter) -> Seq<TodoModel> {
    todos.filter(|todo: TodoModel| visible(todo, filter))
}

/// Whether `todo` is shown under `filter`.
pub fn is_visible(todo: &Todo, filter: VisibilityFilter) -> (shown: bool)
    ensures
        shown == visible(todo@, filter),
{
    if todo.deleted {
        false
    } else {
        match filter {
            VisibilityFilter::ShowAll => true,
            VisibilityFilter::ShowCompleted => todo.completed,
            VisibilityFilter::ShowActive => !todo.completed,
        }
    }
}

/// Copies of the entries that `state` shows under its own filter, in
/// insertion order.
pub fn visible_todos(state: &State) -> (shown: Vec<Todo>)
    ensures
        models(shown@) == visible_under(state@.todos, state@.visibility_filter),
{
    let filter = state.visibility_filter;
    let ghost pred = |todo: TodoModel| visible(todo, filter);
    let mut shown: Vec<Todo> = Vec::new();
    let mut k: usize = 0;
    assert(Seq::<TodoModel>::empty().filter(pred) =~= Seq::<TodoModel>::empty()) by {
        Seq::<TodoModel>::empty().lemma_filter_len(pred);
    }
    while k < state.todos.len()
        invariant
            k <= state.todos@.len(),
            filter == state.visibility_filter,
            pred == |todo: TodoModel| visible(todo, filter),
            models(shown@) == models(state.todos@).take(k as int).filter(pred),
        decreases state.todos@.len() - k,
    {
        let ghost before = models(shown@);
        proof {
            let all = models(state.todos@);
            assert(all.take(k as int + 1) =~= all.take(k as int).push(all[k as int]));
            all.take(k as int).lemma_filter_push(all[k as int], pred);
        }
        if is_visible(&state.todos[k], filter) {
            shown.push(state.todos[k].clone());
            assert(models(shown@) =~= before.push(state.todos@[k as int]@));
        }
        k += 1;
    }
    assert(models(state.todos@).take(k as int) =~= models(state.todos@));
    shown
}

/// How many entries are still to do: neither completed nor deleted.
pub fn active_count(todos: &Vec<Todo>) -> (count: usize)
    ensures
        count == visible_under(models(todos@), VisibilityFilter::ShowActive).len(),
{
    let ghost pred = |todo: TodoModel| visible(todo, VisibilityFilter::ShowActive);
    let mut count: usize = 0;
    let mut k: usize = 0;
    assert(Seq::<TodoModel>::empty().filter(pred).len() == 0) by {
        Seq::<TodoModel>::empty().lemma_filter_len(pred);
    }
    while k < todos.len()
        invariant
            k <= todos@.len(),
            count <= k,
            pred == |todo: TodoModel| visible(todo, VisibilityFilter::ShowActive),
            count == models(todos@).take(k as int).filter(pred).len(),
        decreases todos@.len() - k,
    {
        proof {
            let all = models(todos@);
            assert(all.take(k as int + 1) =~= all.take(k as int).push(all[k as int]));
            all.take(k as int).lemma_filter_push(all[k as int], pred);
        }
        if !todos[k].completed && !todos[k].deleted {
            count += 1;
        }
        k += 1;
    }
    assert(models(todos@).take(k as int) =~= models(todos@));
    count
}

/// The text that tells how many entries are left: the count in decimal,
/// then " item left" for exactly one and " items left" otherwise.
pub fn items_left(count: usize) -> (label: String)
    ensures
        label@ == decimal_text(count as nat) + (if count == 1 {
            " item left"@
        } else {
            " items left"@
        }),
{
    let mut output = decimal(count);
    if count == 1 {
        output.append(" item left");
    } else {
        output.append(" items left");
    }
    output
}

/// The filter that a name stands for: the variant's own name, and no other
/// text.
pub open spec fn filter_named(name: Seq<char>) -> Option<VisibilityFilter> {
    if name == "ShowAll"@ {
        Some(VisibilityFilter::ShowAll)
    } else if name == "ShowCompleted"@ {
        Some(VisibilityFilter::ShowCompleted)
    } else if name == "ShowActive"@ {
        Some(VisibilityFilter::ShowActive)
    } else {
        None
    }
}

/// Reads a filter from its name.
pub fn parse_filter(name: &str) -> (filter: Option<VisibilityFilter>)
    ensures
        filter == filter_named(name@),
{
    if same_text(name, "ShowAll") {
        Some(VisibilityFilter::ShowAll)
    } else if same_text(name, "ShowCompleted") {
        Some(VisibilityFilter::ShowCompleted)
    } else if same_text(name, "ShowActive") {
        Some(VisibilityFilter::ShowActive)
    } else {
        None
    }
}

/// Whether an entry with these flags is shown under the filter named `name`:
/// a deleted entry never is, and under a name that is no filter's nothing is.
pub open spec fn shown_by_name(name: Seq<char>, completed: bool, deleted: bool) -> bool {
    match filter_named(name) {
        Some(filter) => !deleted && shows_completion(filter, completed),
        None => false,
    }
}

/// Whether an entry with these flags is shown under the filter named
/// `active_filter`. A deleted entry is shown under no filter, and under a
/// name that is no filter's nothing is shown.
pub fn filter_todo(active_filter: &str, is_completed: bool, is_deleted: bool) -> (show: bool)
    ensures
        show == match filter_named(active_filter@) {
            Some(filter) => !is_deleted && shows_completion(filter, is_completed),
            None => false,
        },
        show == shown_by_name(active_filter@, is_completed, is_deleted),
{
    if is_deleted {
        return false;
    }
    match parse_filter(active_filter) {
        Some(VisibilityFilter::ShowAll) => true,
        Some(VisibilityFilter::ShowCompleted) => is_completed,
        Some(VisibilityFilter::ShowActive) => !is_completed,
        None => false,
    }
}

/// Whether `param` names the active filter: both are the same text, and that
/// text is a filter's name.
pub fn is_selected_filter(active_filter: &str, param: &str) -> (selected: bool)
    ensures
        selected == (filter_named(active_filter@) is Some && param@ == active_filter@),
{
    match parse_filter(active_filter) {
        Some(_) => same_text(param, active_filter),
        None => false,
    }
}

} // verus!
