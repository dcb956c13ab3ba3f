use redux_light::display::visible_todos;
use redux_light::store::reducer;
use redux_light::store::Action;
use redux_light::store::State;
use redux_light::store::Store;
use redux_light::store::VisibilityFilter;
use redux_light::todo::Todo;
use redux_light::todo::TodoAction;
use std::cell::RefCell;
use std::rc::Rc;

type Reducer = fn(&State, Action) -> State;
type Listener = Box<dyn Fn(&State)>;

fn todo(id: i16, title: &str, completed: bool, deleted: bool) -> Todo {
    Todo { id, title: title.to_string(), completed, deleted }
}

fn add(title: &str) -> Action {
    Action::Todos(TodoAction::Add(title.to_string()))
}

fn new_store() -> Store<Reducer, Listener> {
    Store::create_store(reducer as Reducer)
}

fn recorder(name: &'static str, log: &Rc<RefCell<Vec<(&'static str, State)>>>) -> Listener {
    let log = Rc::clone(log);
    Box::new(move |state: &State| log.borrow_mut().push((name, state.clone())))
}

#[test]
fn new_store_holds_the_default_state() {
    let store = new_store();
    assert_eq!(store.get_state(), &State::default());
}

#[test]
fn dispatch_replaces_the_state_by_the_reducers_result() {
    let mut store = new_store();
    store.dispatch(add("one thing"));
    let expected = reducer(&State::default(), add("one thing"));
    assert_eq!(store.get_state(), &expected);
    assert_eq!(store.get_state().todos, vec![todo(1, "one thing", false, false)]);
}

#[test]
fn dispatch_uses_the_reducer_it_was_created_with() {
    fn always_completed(state: &State, _action: Action) -> State {
        State { todos: state.todos.clone(), visibility_filter: VisibilityFilter::ShowCompleted }
    }
    let mut store: Store<Reducer, Listener> = Store::create_store(always_completed as Reducer);
    store.dispatch(add("ignored"));
    assert_eq!(
        store.get_state(),
        &State { todos: Vec::new(), visibility_filter: VisibilityFilter::ShowCompleted }
    );
}

#[test]
fn end_to_end_scenario() {
    let mut store = new_store();
    store.dispatch(add("buy milk"));
    store.dispatch(add("walk dog"));
    store.dispatch(Action::Todos(TodoAction::Toggle(1)));
    store.dispatch(Action::Todos(TodoAction::Remove(2)));
    let state = store.get_state();
    assert_eq!(state.visibility_filter, VisibilityFilter::ShowAll);
    assert_eq!(
        state.todos,
        vec![todo(1, "buy milk", true, false), todo(2, "walk dog", false, true)]
    );
    assert_eq!(visible_todos(state), vec![todo(1, "buy milk", true, false)]);
}

#[test]
fn show_active_then_filter_shows_active_entries_only() {
    let mut store = new_store();
    store.dispatch(add("a"));
    store.dispatch(add("b"));
    store.dispatch(add("c"));
    store.dispatch(Action::Todos(TodoAction::Toggle(1)));
    store.dispatch(Action::Todos(TodoAction::Remove(3)));
    store.dispatch(Action::Visibility(VisibilityFilter::ShowActive));
    let shown = visible_todos(store.get_state());
    assert_eq!(shown, vec![todo(2, "b", false, false)]);
    assert!(shown.iter().all(|todo| !todo.completed && !todo.deleted));
}

#[test]
fn listeners_run_in_subscription_order_once_each() {
    let log = Rc::new(RefCell::new(Vec::new()));
    let mut store = new_store();
    store.subscribe(recorder("first", &log));
    store.subscribe(recorder("second", &log));
    store.dispatch(add("watched"));
    let expected = State {
        todos: vec![todo(1, "watched", false, false)],
        visibility_filter: VisibilityFilter::ShowAll,
    };
    assert_eq!(*log.borrow(), vec![("first", expected.clone()), ("second", expected.clone())]);
    assert_eq!(store.get_state(), &expected);
}

#[test]
fn listeners_run_on_every_dispatch() {
    let log = Rc::new(RefCell::new(Vec::new()));
    let mut store = new_store();
    store.subscribe(recorder("only", &log));
    store.dispatch(add("a"));
    store.dispatch(Action::Visibility(VisibilityFilter::ShowCompleted));
    let seen: Vec<usize> = log.borrow().iter().map(|(_, state)| state.todos.len()).collect();
    assert_eq!(seen, vec![1, 1]);
    assert_eq!(log.borrow()[1].1.visibility_filter, VisibilityFilter::ShowCompleted);
}

#[test]
fn a_listener_subscribed_twice_runs_twice() {
    let log = Rc::new(RefCell::new(Vec::new()));
    let mut store = new_store();
    store.subscribe(recorder("same", &log));
    store.subscribe(recorder("same", &log));
    store.dispatch(add("a"));
    assert_eq!(log.borrow().len(), 2);
}

#[test]
fn subscribing_does_not_touch_the_state_or_call_the_listener() {
    let log = Rc::new(RefCell::new(Vec::new()));
    let mut store = new_store();
    store.dispatch(add("a"));
    let before = store.get_state().clone();
    store.subscribe(recorder("late", &log));
    assert_eq!(store.get_state(), &before);
    assert!(log.borrow().is_empty());
}

#[test]
fn toggle_of_unknown_id_leaves_the_state_unchanged() {
    let log = Rc::new(RefCell::new(Vec::new()));
    let mut store = new_store();
    store.dispatch(add("buy milk"));
    store.dispatch(add("walk dog"));
    let before = store.get_state().clone();
    store.subscribe(recorder("watch", &log));
    store.dispatch(Action::Todos(TodoAction::Toggle(99)));
    assert_eq!(store.get_state(), &before);
    assert_eq!(*log.borrow(), vec![("watch", before)]);
}

#[test]
fn plain_functions_serve_as_listeners() {
    fn ignore(_state: &State) {}
    let mut store: Store<Reducer, fn(&State)> = Store::create_store(reducer as Reducer);
    store.subscribe(ignore);
    store.dispatch(add("a"));
    assert_eq!(store.get_state().todos.len(), 1);
}
