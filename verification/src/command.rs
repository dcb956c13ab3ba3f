//! Turning text into actions: the words of a command line, and the two path
//! segments of a request.

use crate::store::Action;
use crate::store::ActionModel;
use crate::store::VisibilityFilter;
use crate::text::id_of;
use crate::text::parse_id;
use crate::text::same_text;
use crate::todo::add_todo;
use crate::todo::mark_done;
use crate::todo::models;
use crate::todo::remove_todo;
use crate::todo::with_added;
use crate::todo::with_done;
use crate::todo::with_removed;
use crate::todo::Todo;
use crate::todo::TodoAction;
use crate::todo::TodoActionModel;
use crate::todo::TodoModel;
use crate::todo::MAX_ID;
use vstd::prelude::*;
use vstd::std_specs::iter::IteratorSpec;
use vstd::string::StrSliceExecFns;
use vstd::string::StringExecFns;

verus! {

/// What a command line asks for.
#[derive(Debug, PartialEq, Eq)]
pub enum Command {
    /// A well-formed request: dispatch this action.
    Dispatch(Action),
    /// A `toggle` or `remove` whose argument is no id: nothing is to be done.
    Ignored,
    /// No command at all: to be reported.
    Invalid,
}

/// What a `Command` is, as a plain mathematical value.
pub enum CommandModel {
    Dispatch(ActionModel),
    Ignored,
    Invalid,
}

impl View for Command {
    type V = CommandModel;

    open spec fn view(&self) -> CommandModel {
        match *self {
            Command::Dispatch(action) => CommandModel::Dispatch(action@),
            Command::Ignored => CommandModel::Ignored,
            Command::Invalid => CommandModel::Invalid,
        }
    }
}

/// The texts of a sequence of strings, in order.
pub open spec fn texts(words: Seq<String>) -> Seq<Seq<char>> {
    Seq::new(words.len(), |i: int| words[i]@)
}

/// The filter that a word of a `show` command stands for.
pub open spec fn filter_word(word: Seq<char>) -> Option<VisibilityFilter> {
    if word == "all"@ {
        Some(VisibilityFilter::ShowAll)
    } else if word == "active"@ {
        Some(VisibilityFilter::ShowActive)
    } else if word == "completed"@ {
        Some(VisibilityFilter::ShowCompleted)
    } else {
        None
    }
}

/// The words joined by single spaces.
pub open spec fn joined(words: Seq<Seq<char>>) -> Seq<char>
    decreases words.len(),
{
    if words.len() == 0 {
        Seq::empty()
    } else if words.len() == 1 {
        words[0]
    } else {
        joined(words.drop_last()) + seq![' '] + words.last()
    }
}

/// Whether the words hold what their command needs: `toggle`, `remove` and
/// `show` take an argument.
pub open spec fn complete(words: Seq<Seq<char>>) -> bool {
    words.len() > 0 && (words[0] == "remove"@ || words[0] == "toggle"@ || words[0] == "show"@)
        ==> words.len() >= 2
}

/// What the words of a command line ask for. `add` takes the rest of the line
/// as the title; `toggle` and `remove` take an id; `show` takes `all`,
/// `active` or `completed`.
pub open spec fn interpret(words: Seq<Seq<char>>) -> CommandModel {
    if words.len() == 0 {
        CommandModel::Invalid
    } else if words[0] == "add"@ {
        CommandModel::Dispatch(ActionModel::Todos(TodoActionModel::Add(joined(words.skip(1)))))
    } else if words[0] == "remove"@ {
        match id_of(words[1]) {
            Some(id) => CommandModel::Dispatch(
                ActionModel::Todos(TodoActionModel::Remove(id as int)),
            ),
            None => CommandModel::Ignored,
        }
    } else if words[0] == "toggle"@ {
        match id_of(words[1]) {
            Some(id) => CommandModel::Dispatch(
                ActionModel::Todos(TodoActionModel::Toggle(id as int)),
            ),
            None => CommandModel::Ignored,
        }
    } else if words[0] == "show"@ {
        match filter_word(words[1]) {
            Some(filter) => CommandModel::Dispatch(ActionModel::Visibility(filter)),
            None => CommandModel::Invalid,
        }
    } else {
        CommandModel::Invalid
    }
}

/// What the two path segments of a request ask for. With an id in second
/// place the first names `toggle` or `remove`; otherwise the pair is `show`
/// and a filter word. Anything else asks for nothing.
pub open spec fn route(action: Seq<char>, id: Seq<char>) -> Option<ActionModel> {
    match id_of(id) {
        Some(num) => if action == "toggle"@ {
            Some(ActionModel::Todos(TodoActionModel::Toggle(num as int)))
        } else if action == "remove"@ {
            Some(ActionModel::Todos(TodoActionModel::Remove(num as int)))
        } else {
            None
        },
        None => if action == "show"@ {
            match filter_word(id) {
                Some(filter) => Some(ActionModel::Visibility(filter)),
                None => None,
            }
        } else {
            None
        },
    }
}

/// Whether `c` is white space: a tab, a line feed, a vertical tab, a form
/// feed, a carriage return, a space, a next-line mark, or one of the spaces
/// and separators beyond the first 256 code points.
pub open spec fn is_space(c: char) -> bool {
    ||| '\u{9}' <= c && c <= '\u{d}'
    ||| c == ' '
    ||| c == '\u{85}'
    ||| c == '\u{a0}'
    ||| c == '\u{1680}'
    ||| '\u{2000}' <= c && c <= '\u{200a}'
    ||| c == '\u{2028}'
    ||| c == '\u{2029}'
    ||| c == '\u{202f}'
    ||| c == '\u{205f}'
    ||| c == '\u{3000}'
}

/// What reading `line` from its start leaves: the words that have ended,
/// and the word that is still open, empty after white space.
pub open spec fn scanned(line: Seq<char>) -> (Seq<Seq<char>>, Seq<char>)
    decreases line.len(),
{
    if line.len() == 0 {
        (Seq::empty(), Seq::empty())
    } else {
        let (ended, open) = scanned(line.drop_last());
        if !is_space(line.last()) {
            (ended, open.push(line.last()))
        } else if open.len() > 0 {
            (ended.push(open), Seq::empty())
        } else {
            (ended, open)
        }
    }
}

/// The words of a line: its runs of characters that are no white space, in
/// order.
pub open spec fn words_of(line: Seq<char>) -> Seq<Seq<char>> {
    let (ended, open) = scanned(line);
    if open.len() > 0 {
        ended.push(open)
    } else {
        ended
    }
}

/// Whether `c` is white space.
pub fn is_space_char(c: char) -> (space: bool)
    ensures
        space == is_space(c),
{
    ('\u{9}' <= c && c <= '\u{d}') || c == ' ' || c == '\u{85}' || c == '\u{a0}' || c
        == '\u{1680}' || ('\u{2000}' <= c && c <= '\u{200a}') || c == '\u{2028}' || c
        == '\u{2029}' || c == '\u{202f}' || c == '\u{205f}' || c == '\u{3000}'
}

/// Splits a line into its words.
pub fn split_words(line: &str) -> (words: Vec<String>)
    ensures
        texts(words@) == words_of(line@),
{
    let mut words: Vec<String> = Vec::new();
    let mut rest = line.chars();
    let n = line.unicode_len();
    let mut start: usize = 0;
    let mut k: usize = 0;
    while k < n
        invariant
            n == line@.len(),
            start <= k <= n,
            rest.remaining() == line@.skip(k as int),
            scanned(line@.take(k as int)) == (texts(words@), line@.subrange(start as int, k as int)),
        decreases n - k,
    {
        let ghost before = texts(words@);
        proof {
            assert(line@.take(k as int + 1).drop_last() =~= line@.take(k as int));
            assert(line@.skip(k as int).drop_first() =~= line@.skip(k as int + 1));
        }
        if let Some(c) = rest.next() {
            if is_space_char(c) {
                if start < k {
                    words.push(line.substring_char(start, k).to_owned());
                    assert(texts(words@) =~= before.push(line@.subrange(start as int, k as int)));
                }
                start = k + 1;
            } else {
                assert(line@.subrange(start as int, k as int + 1) =~= line@.subrange(
                    start as int,
                    k as int,
                ).push(c));
            }
        }
        k += 1;
    }
    assert(line@.take(k as int) =~= line@);
    if start < k {
        let ghost before = texts(words@);
        words.push(line.substring_char(start, k).to_owned());
        assert(texts(words@) =~= before.push(line@.subrange(start as int, k as int)));
    }
    words
}

/// Reads the filter that a word of a `show` command stands for.
pub fn parse_filter_word(word: &str) -> (filter: Option<VisibilityFilter>)
    ensures
        filter == filter_word(word@),
{
    if same_text(word, "all") {
        Some(VisibilityFilter::ShowAll)
    } else if same_text(word, "active") {
        Some(VisibilityFilter::ShowActive)
    } else if same_text(word, "completed") {
        Some(VisibilityFilter::ShowCompleted)
    } else {
        None
    }
}

/// Joins the words from position `from` on by single spaces.
pub fn join_from(words: &Vec<String>, from: usize) -> (line: String)
    requires
        from <= words@.len(),
    ensures
        line@ == joined(texts(words@).skip(from as int)),
{
    let ghost all = texts(words@);
    let mut line = String::new();
    let mut k: usize = from;
    while k < words.len()
        invariant
            from <= k <= words@.len(),
            all == texts(words@),
            line@ == joined(all.subrange(from as int, k as int)),
        decreases words@.len() - k,
    {
        proof {
            let done = all.subrange(from as int, k as int);
            let more = all.subrange(from as int, k as int + 1);
            assert(more.drop_last() =~= done);
            reveal_strlit(" ");
            assert(" "@ =~= seq![' ']);
        }
        if k > from {
            line.append(" ");
        }
        line.append(words[k].as_str());
        assert(line@ =~= joined(all.subrange(from as int, k as int + 1)));
        k += 1;
    }
    assert(all.subrange(from as int, k as int) =~= all.skip(from as int));
    line
}

/// What the words of a command line ask for.
pub fn interpret_words(words: &Vec<String>) -> (command: Command)
    requires
        complete(texts(words@)),
    ensures
        command@ == interpret(texts(words@)),
{
    if words.len() == 0 {
        return Command::Invalid;
    }
    let first = words[0].as_str();
    if same_text(first, "add") {
        Command::Dispatch(Action::Todos(TodoAction::Add(join_from(words, 1))))
    } else if same_text(first, "remove") {
        match parse_id(words[1].as_str()) {
            Some(id) => Command::Dispatch(Action::Todos(TodoAction::Remove(id))),
            None => Command::Ignored,
        }
    } else if same_text(first, "toggle") {
        match parse_id(words[1].as_str()) {
            Some(id) => Command::Dispatch(Action::Todos(TodoAction::Toggle(id))),
            None => Command::Ignored,
        }
    } else if same_text(first, "show") {
        match parse_filter_word(words[1].as_str()) {
            Some(filter) => Command::Dispatch(Action::Visibility(filter)),
            None => Command::Invalid,
        }
    } else {
        Command::Invalid
    }
}

/// What a command line asks for, or `None` where a `toggle`, `remove` or
/// `show` stands without its argument.
pub fn interpret_line(line: &str) -> (command: Option<Command>)
    ensures
        match command {
            Some(found) => complete(words_of(line@)) && found@ == interpret(words_of(line@)),
            None => !complete(words_of(line@)),
        },
{
    let words = split_words(line);
    if words.len() == 1 {
        let first = words[0].as_str();
        if same_text(first, "remove") || same_text(first, "toggle") || same_text(first, "show") {
            return None;
        }
    }
    Some(interpret_words(&words))
}

/// What the two path segments of a request ask for, if anything.
pub fn route_action(action: &str, id: &str) -> (found: Option<Action>)
    ensures
        match found {
            Some(wanted) => route(action@, id@) == Some(wanted@),
            None => route(action@, id@) is None,
        },
{
    match parse_id(id) {
        Some(num) => {
            if same_text(action, "toggle") {
                Some(Action::Todos(TodoAction::Toggle(num)))
            } else if same_text(action, "remove") {
                Some(Action::Todos(TodoAction::Remove(num)))
            } else {
                None
            }
        },
        None => {
            if same_text(action, "show") {
                match parse_filter_word(id) {
                    Some(filter) => Some(Action::Visibility(filter)),
                    None => None,
                }
            } else {
                None
            }
        },
    }
}

/// What a line of the plain list program asks for.
#[derive(Debug, PartialEq, Eq)]
pub enum ListCommand {
    /// Show the list.
    List,
    /// Append a new entry with this title.
    Add(String),
    /// Tombstone the first entry with this id.
    Remove(i16),
    /// Mark the first entry with this id as completed.
    Done(i16),
    /// A `remove` or `done` whose argument is no id: nothing is to be done.
    Ignored,
    /// No command at all: to be reported.
    Invalid,
}

/// What a `ListCommand` is, as a plain mathematical value.
pub enum ListCommandModel {
    List,
    Add(Seq<char>),
    Remove(int),
    Done(int),
    Ignored,
    Invalid,
}

impl View for ListCommand {
    type V = ListCommandModel;

    open spec fn view(&self) -> ListCommandModel {
        match *self {
            ListCommand::List => ListCommandModel::List,
            ListCommand::Add(title) => ListCommandModel::Add(title@),
            ListCommand::Remove(id) => ListCommandModel::Remove(id as int),
            ListCommand::Done(id) => ListCommandModel::Done(id as int),
            ListCommand::Ignored => ListCommandModel::Ignored,
            ListCommand::Invalid => ListCommandModel::Invalid,
        }
    }
}

/// What the words of a line of the plain list program ask for. A single word
/// can only be `list`; `add` takes the rest of the line as the title;
/// `remove` and `done` take an id.
pub open spec fn interpret_list(words: Seq<Seq<char>>) -> ListCommandModel {
    if words.len() == 0 {
        ListCommandModel::Invalid
    } else if words.len() == 1 {
        if words[0] == "list"@ {
            ListCommandModel::List
        } else {
            ListCommandModel::Invalid
        }
    } else if words[0] == "add"@ {
        ListCommandModel::Add(joined(words.skip(1)))
    } else if words[0] == "remove"@ {
        match id_of(words[1]) {
            Some(id) => ListCommandModel::Remove(id as int),
            None => ListCommandModel::Ignored,
        }
    } else if words[0] == "done"@ {
        match id_of(words[1]) {
            Some(id) => ListCommandModel::Done(id as int),
            None => ListCommandModel::Ignored,
        }
    } else {
        ListCommandModel::Invalid
    }
}

/// The todo sequence after a command of the plain list program.
pub open spec fn list_after(todos: Seq<TodoModel>, command: ListCommandModel) -> Seq<TodoModel> {
    match command {
        ListCommandModel::Add(title) => with_added(todos, title),
        ListCommandModel::Remove(id) => with_removed(todos, id),
        ListCommandModel::Done(id) => with_done(todos, id),
        _ => todos,
    }
}

/// What the words of a line of the plain list program ask for.
pub fn interpret_list_words(words: &Vec<String>) -> (command: ListCommand)
    ensures
        command@ == interpret_list(texts(words@)),
{
    if words.len() == 0 {
        return ListCommand::Invalid;
    }
    let first = words[0].as_str();
    if words.len() == 1 {
        if same_text(first, "list") {
            ListCommand::List
        } else {
            ListCommand::Invalid
        }
    } else if same_text(first, "add") {
        ListCommand::Add(join_from(words, 1))
    } else if same_text(first, "remove") {
        match parse_id(words[1].as_str()) {
            Some(id) => ListCommand::Remove(id),
            None => ListCommand::Ignored,
        }
    } else if same_text(first, "done") {
        match parse_id(words[1].as_str()) {
            Some(id) => ListCommand::Done(id),
            None => ListCommand::Ignored,
        }
    } else {
        ListCommand::Invalid
    }
}

/// What a line of the plain list program asks for.
pub fn interpret_list_line(line: &str) -> (command: ListCommand)
    ensures
        command@ == interpret_list(words_of(line@)),
{
    let words = split_words(line);
    interpret_list_words(&words)
}

/// Carries out a command of the plain list program on the todo sequence.
pub fn run_list_command(todos: &mut Vec<Todo>, command: &ListCommand)
    requires
        command@ is Add ==> old(todos)@.len() < MAX_ID,
    ensures
        models(final(todos)@) == list_after(models(old(todos)@), command@),
{
    match command {
        ListCommand::Add(title) => add_todo(todos, title.as_str()),
        ListCommand::Remove(id) => remove_todo(todos, *id),
        ListCommand::Done(id) => mark_done(todos, *id),
        _ => {},
    }
}

/// What a submitted form asks for: a new entry, where the form holds a title
/// that is not empty.
pub fn form_action(todo: Option<&str>) -> (found: Option<Action>)
    ensures
        match found {
            Some(wanted) => todo is Some && todo->0@.len() > 0 && wanted@ == ActionModel::Todos(
                TodoActionModel::Add(todo->0@),
            ),
            None => todo is None || todo->0@.len() == 0,
        },
{
    match todo {
        Some(title) => {
            if title.is_empty() {
                None
            } else {
                Some(Action::Todos(TodoAction::Add(title.to_owned())))
            }
        },
        None => None,
    }
}

} // verus!
