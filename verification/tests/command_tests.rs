use redux_light::command::interpret_line;
use redux_light::command::interpret_list_line;
use redux_light::command::interpret_list_words;
use redux_light::command::run_list_command;
use redux_light::command::ListCommand;
use redux_light::todo::Todo;
use redux_light::command::interpret_words;
use redux_light::command::join_from;
use redux_light::command::parse_filter_word;
use redux_light::command::route_action;
use redux_light::command::Command;
use redux_light::store::Action;
use redux_light::store::VisibilityFilter;
use redux_light::todo::TodoAction;

fn words(all: &[&str]) -> Vec<String> {
    all.iter().map(|word| word.to_string()).collect()
}

fn dispatch_add(title: &str) -> Command {
    Command::Dispatch(Action::Todos(TodoAction::Add(title.to_string())))
}

#[test]
fn add_takes_the_rest_of_the_line_as_title() {
    assert_eq!(interpret_line("add buy milk"), Some(dispatch_add("buy milk")));
    assert_eq!(interpret_line("  add   buy \t milk \n"), Some(dispatch_add("buy milk")));
    assert_eq!(interpret_line("add"), Some(dispatch_add("")));
}

#[test]
fn toggle_and_remove_take_an_id() {
    assert_eq!(
        interpret_line("toggle 3\n"),
        Some(Command::Dispatch(Action::Todos(TodoAction::Toggle(3))))
    );
    assert_eq!(
        interpret_line("remove -7"),
        Some(Command::Dispatch(Action::Todos(TodoAction::Remove(-7))))
    );
    assert_eq!(
        interpret_line("remove 2 and more"),
        Some(Command::Dispatch(Action::Todos(TodoAction::Remove(2))))
    );
}

#[test]
fn toggle_and_remove_without_a_number_are_ignored() {
    assert_eq!(interpret_line("toggle first"), Some(Command::Ignored));
    assert_eq!(interpret_line("remove 40000"), Some(Command::Ignored));
    assert_eq!(interpret_line("remove 1.5"), Some(Command::Ignored));
}

#[test]
fn show_takes_a_filter_word() {
    assert_eq!(
        interpret_line("show all"),
        Some(Command::Dispatch(Action::Visibility(VisibilityFilter::ShowAll)))
    );
    assert_eq!(
        interpret_line("show active"),
        Some(Command::Dispatch(Action::Visibility(VisibilityFilter::ShowActive)))
    );
    assert_eq!(
        interpret_line("show completed"),
        Some(Command::Dispatch(Action::Visibility(VisibilityFilter::ShowCompleted)))
    );
    assert_eq!(interpret_line("show everything"), Some(Command::Invalid));
}

#[test]
fn unknown_and_empty_lines_are_invalid() {
    assert_eq!(interpret_line(""), Some(Command::Invalid));
    assert_eq!(interpret_line("   \n"), Some(Command::Invalid));
    assert_eq!(interpret_line("list"), Some(Command::Invalid));
    assert_eq!(interpret_line("Add x"), Some(Command::Invalid));
    assert_eq!(interpret_line("done 1"), Some(Command::Invalid));
}

#[test]
fn a_command_without_its_argument_is_not_interpreted() {
    assert_eq!(interpret_line("toggle"), None);
    assert_eq!(interpret_line("remove\n"), None);
    assert_eq!(interpret_line(" show "), None);
}

#[test]
fn interpret_words_reads_split_words() {
    assert_eq!(interpret_words(&words(&[])), Command::Invalid);
    assert_eq!(interpret_words(&words(&["add", "a", "b", "c"])), dispatch_add("a b c"));
    assert_eq!(
        interpret_words(&words(&["toggle", "+12"])),
        Command::Dispatch(Action::Todos(TodoAction::Toggle(12)))
    );
    assert_eq!(interpret_words(&words(&["show", "All"])), Command::Invalid);
    assert_eq!(interpret_words(&words(&["help"])), Command::Invalid);
}

#[test]
fn join_from_puts_single_spaces_between_words() {
    let all = words(&["add", "one", "more", "thing"]);
    assert_eq!(join_from(&all, 0), "add one more thing");
    assert_eq!(join_from(&all, 1), "one more thing");
    assert_eq!(join_from(&all, 3), "thing");
    assert_eq!(join_from(&all, 4), "");
    assert_eq!(join_from(&words(&["", ""]), 0), " ");
}

#[test]
fn parse_filter_word_reads_the_three_words() {
    assert_eq!(parse_filter_word("all"), Some(VisibilityFilter::ShowAll));
    assert_eq!(parse_filter_word("active"), Some(VisibilityFilter::ShowActive));
    assert_eq!(parse_filter_word("completed"), Some(VisibilityFilter::ShowCompleted));
    assert_eq!(parse_filter_word("ShowAll"), None);
    assert_eq!(parse_filter_word(""), None);
}

#[test]
fn route_action_with_an_id() {
    assert_eq!(route_action("toggle", "1"), Some(Action::Todos(TodoAction::Toggle(1))));
    assert_eq!(route_action("remove", "25"), Some(Action::Todos(TodoAction::Remove(25))));
    assert_eq!(route_action("show", "1"), None);
    assert_eq!(route_action("other", "1"), None);
}

#[test]
fn route_action_without_an_id() {
    assert_eq!(route_action("show", "all"), Some(Action::Visibility(VisibilityFilter::ShowAll)));
    assert_eq!(
        route_action("show", "active"),
        Some(Action::Visibility(VisibilityFilter::ShowActive))
    );
    assert_eq!(
        route_action("show", "completed"),
        Some(Action::Visibility(VisibilityFilter::ShowCompleted))
    );
    assert_eq!(route_action("show", "none"), None);
    assert_eq!(route_action("toggle", "one"), None);
    assert_eq!(route_action("remove", ""), None);
}

#[test]
fn is_space_char_on_every_character() {
    for code in 0..=0x10ffffu32 {
        if let Some(c) = char::from_u32(code) {
            assert_eq!(redux_light::command::is_space_char(c), c.is_whitespace());
        }
    }
}

#[test]
fn split_words_drops_white_space_of_every_kind() {
    let lines = [
        "",
        " ",
        "one",
        " one",
        "one ",
        "one two",
        "  one \t two\r\nthree  ",
        "a\u{b}b\u{c}c\u{85}d\u{a0}e\u{1680}f\u{2000}g\u{200a}h\u{2028}i\u{2029}j\u{202f}k\u{205f}l\u{3000}m",
        "caf\u{e9} \u{1f600}\u{3000}\u{3000}x",
        "\u{200b}zero\u{200b}width \u{feff}",
    ];
    for line in lines {
        let expected: Vec<String> = line.split_whitespace().map(String::from).collect();
        assert_eq!(redux_light::command::split_words(line), expected);
    }
}

#[test]
fn split_words_exact_values() {
    assert_eq!(redux_light::command::split_words("  add  buy\tmilk \n"), words(&["add", "buy", "milk"]));
    assert_eq!(redux_light::command::split_words(" \t\n"), words(&[]));
}

#[test]
fn form_action_adds_a_title_that_is_not_empty() {
    assert_eq!(
        redux_light::command::form_action(Some("buy milk")),
        Some(Action::Todos(TodoAction::Add("buy milk".to_string())))
    );
    assert_eq!(
        redux_light::command::form_action(Some(" ")),
        Some(Action::Todos(TodoAction::Add(" ".to_string())))
    );
    assert_eq!(redux_light::command::form_action(Some("")), None);
    assert_eq!(redux_light::command::form_action(None), None);
}

#[test]
fn list_program_reads_its_four_commands() {
    assert_eq!(interpret_list_line("list\n"), ListCommand::List);
    assert_eq!(interpret_list_line("add buy  milk\n"), ListCommand::Add("buy milk".to_string()));
    assert_eq!(interpret_list_line("remove 2"), ListCommand::Remove(2));
    assert_eq!(interpret_list_line("done 3 now"), ListCommand::Done(3));
}

#[test]
fn list_program_rejects_and_ignores() {
    assert_eq!(interpret_list_line(""), ListCommand::Invalid);
    assert_eq!(interpret_list_line("add"), ListCommand::Invalid);
    assert_eq!(interpret_list_line("remove"), ListCommand::Invalid);
    assert_eq!(interpret_list_line("done"), ListCommand::Invalid);
    assert_eq!(interpret_list_line("show"), ListCommand::Invalid);
    assert_eq!(interpret_list_line("list all"), ListCommand::Invalid);
    assert_eq!(interpret_list_line("toggle 1"), ListCommand::Invalid);
    assert_eq!(interpret_list_line("remove x"), ListCommand::Ignored);
    assert_eq!(interpret_list_line("done 99999"), ListCommand::Ignored);
}

#[test]
fn list_program_words_are_read_like_lines() {
    assert_eq!(interpret_list_words(&words(&[])), ListCommand::Invalid);
    assert_eq!(interpret_list_words(&words(&["list"])), ListCommand::List);
    assert_eq!(interpret_list_words(&words(&["add", "a", "b"])), ListCommand::Add("a b".to_string()));
    assert_eq!(interpret_list_words(&words(&["done", "-4"])), ListCommand::Done(-4));
}

#[test]
fn run_list_command_changes_the_list() {
    let mut todos: Vec<Todo> = Vec::new();
    run_list_command(&mut todos, &ListCommand::Add("a".to_string()));
    run_list_command(&mut todos, &ListCommand::Add("b".to_string()));
    run_list_command(&mut todos, &ListCommand::Done(1));
    run_list_command(&mut todos, &ListCommand::Remove(2));
    run_list_command(&mut todos, &ListCommand::Done(9));
    let expected = vec![
        Todo { id: 1, title: "a".to_string(), completed: true, deleted: false },
        Todo { id: 2, title: "b".to_string(), completed: false, deleted: true },
    ];
    assert_eq!(todos, expected);
    for idle in [ListCommand::List, ListCommand::Ignored, ListCommand::Invalid] {
        run_list_command(&mut todos, &idle);
        assert_eq!(todos, expected);
    }
}
