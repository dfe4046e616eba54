//! The interactive shell, one line of input at a time.
//!
//! The shell owns the store. It never reads or writes by itself: its caller
//! shows what [`Shell::prompt`] returns, reads a line, hands the line to
//! [`Shell::step`] and shows what comes back, until the shell has finished.

use crate::display::{
    clear_screen, listing, newline, plain, render_tasks, show, show_all, show_clear, show_report,
    toned, views, Span, SpanView, Tone,
};
use crate::input::{
    command_in, digits_value, index_in, is_numeral, parse_command, parse_index, unsigned, Command,
};
use crate::store::{with_done, TaskStore};
use crate::task::TaskView;
use crate::text::{trim, trimmed};
use vstd::prelude::*;

verus! {

/// What can go wrong with a line of input. None of it ends the session.
#[derive(Clone, Copy, Debug, PartialEq, Eq, Structural)]
pub enum ShellError {
    /// The line names no task: it is no number, or no task has that number.
    InvalidIndex,
    /// The command needs a task, and the store holds none.
    EmptyStore,
    /// The line is none of the menu's keys.
    UnrecognizedCommand,
}

/// What is done to the task whose number the shell waits for.
#[derive(Clone, Copy, Debug, PartialEq, Eq, Structural)]
pub enum Action {
    Delete,
    Check,
    Uncheck,
}

/// What the shell takes the next line of input for.
#[derive(Clone, Copy, Debug, PartialEq, Eq, Structural)]
pub enum Mode {
    /// A menu choice.
    Command,
    /// The title of a new task.
    Title,
    /// The description of a new task, whose title is known.
    Description,
    /// The number of the task to act on.
    Index(Action),
    /// Nothing: the user has quit.
    Finished,
}

/// The shell: the store, and where the dialogue stands.
pub struct Shell {
    store: TaskStore,
    mode: Mode,
    title: String,
}

/// The mathematical value of a [`Shell`].
pub struct ShellView {
    pub tasks: Seq<TaskView>,
    pub mode: Mode,
    /// The title that was entered for the task being added; empty unless
    /// the shell waits for its description.
    pub title: Seq<char>,
}

impl View for Shell {
    type V = ShellView;

    closed spec fn view(&self) -> ShellView {
        ShellView { tasks: self.store@, mode: self.mode, title: self.title@ }
    }
}

/// What the shell answers to a line of input.
pub struct Feedback {
    /// What went wrong, if anything did.
    pub error: Option<ShellError>,
    /// What to show.
    pub output: Vec<Span>,
}

/// The mathematical value of a [`Feedback`].
pub struct FeedbackView {
    pub error: Option<ShellError>,
    pub output: Seq<SpanView>,
}

impl View for Feedback {
    type V = FeedbackView;

    open spec fn view(&self) -> FeedbackView {
        FeedbackView { error: self.error, output: views(self.output@) }
    }
}

/// A message on a line of its own.
pub open spec fn report(tone: Tone, text: Seq<char>) -> Seq<SpanView> {
    seq![toned(tone, text), newline()]
}

/// One line of the menu: the key, a dash, what the key does.
pub open spec fn menu_line(key: Seq<char>, label: Seq<char>) -> Seq<char> {
    key + " - "@ + label + "\n"@
}

/// The menu: a heading and a line for each command.
pub open spec fn menu_text() -> Seq<char> {
    "\nPlease choose an option: \n"@ + menu_line("1"@, "Add task"@) + menu_line(
        "2"@,
        "Delete task"@,
    ) + menu_line("3"@, "List tasks"@) + menu_line("4"@, "Check task"@) + menu_line(
        "5"@,
        "Uncheck task"@,
    ) + menu_line("Q"@, "Quit"@)
}

/// The question that asks for the number of the task to act on.
pub open spec fn index_question(action: Action) -> Seq<char> {
    match action {
        Action::Delete => "Enter task number to delete: "@,
        Action::Check => "Enter task number to check: "@,
        Action::Uncheck => "Enter task number to uncheck: "@,
    }
}

/// What is shown before a line is read in `mode`: the menu and its
/// question, or the question of the sub-prompt.
pub open spec fn prompt_of(mode: Mode) -> Seq<SpanView> {
    match mode {
        Mode::Command => seq![plain(menu_text()), toned(Tone::Prompt, "\nChoose an option: "@)],
        Mode::Title => seq![toned(Tone::Prompt, "Enter task title: "@)],
        Mode::Description => seq![toned(Tone::Prompt, "Enter task description: "@)],
        Mode::Index(action) => seq![toned(Tone::Prompt, index_question(action))],
        Mode::Finished => Seq::<SpanView>::empty(),
    }
}

/// A line that changed nothing and went well, with nothing to show.
pub open spec fn silence() -> FeedbackView {
    FeedbackView { error: None, output: Seq::<SpanView>::empty() }
}

/// What went well, and what to show for it.
pub open spec fn done(output: Seq<SpanView>) -> FeedbackView {
    FeedbackView { error: None, output }
}

/// What went wrong, and the message for it.
pub open spec fn failed(error: ShellError, message: Seq<char>, clear: bool) -> FeedbackView {
    FeedbackView {
        error: Some(error),
        output: if clear {
            seq![clear_screen()] + report(Tone::Error, message)
        } else {
            report(Tone::Error, message)
        },
    }
}

/// The shell after a menu choice, and its answer.
pub open spec fn choose_command(shell: ShellView, line: Seq<char>) -> (ShellView, FeedbackView) {
    match command_in(line) {
        None => (shell, failed(ShellError::UnrecognizedCommand, "Invalid choice"@, true)),
        Some(Command::Add) => (ShellView { mode: Mode::Title, ..shell }, silence()),
        Some(Command::List) => (shell, done(seq![clear_screen()] + listing(shell.tasks))),
        Some(Command::Quit) => (ShellView { mode: Mode::Finished, ..shell }, silence()),
        Some(Command::Delete) => if shell.tasks.len() == 0 {
            (shell, failed(ShellError::EmptyStore, "No tasks to delete."@, false))
        } else {
            (ShellView { mode: Mode::Index(Action::Delete), ..shell }, done(listing(shell.tasks)))
        },
        Some(Command::Check) => if shell.tasks.len() == 0 {
            (shell, failed(ShellError::EmptyStore, "No tasks available."@, false))
        } else {
            (ShellView { mode: Mode::Index(Action::Check), ..shell }, done(listing(shell.tasks)))
        },
        Some(Command::Uncheck) => if shell.tasks.len() == 0 {
            (shell, failed(ShellError::EmptyStore, "No tasks available."@, false))
        } else {
            (ShellView { mode: Mode::Index(Action::Uncheck), ..shell }, done(listing(shell.tasks)))
        },
    }
}

/// The store after `action` on the task at `index`.
pub open spec fn acted(tasks: Seq<TaskView>, action: Action, index: int) -> Seq<TaskView> {
    match action {
        Action::Delete => tasks.remove(index),
        Action::Check => with_done(tasks, index, true),
        Action::Uncheck => with_done(tasks, index, false),
    }
}

/// What is shown when `action` has given the store `tasks`.
pub open spec fn confirmation(action: Action, tasks: Seq<TaskView>) -> Seq<SpanView> {
    match action {
        Action::Delete => seq![clear_screen()] + report(
            Tone::Success,
            "Task deleted successfully"@,
        ),
        Action::Check => seq![clear_screen()] + listing(tasks) + seq![newline()] + report(
            Tone::Success,
            "Task checked successfully"@,
        ),
        Action::Uncheck => seq![clear_screen()] + listing(tasks) + seq![newline()] + report(
            Tone::Success,
            "Task unchecked successfully"@,
        ),
    }
}

/// The shell after the number of a task was entered, and its answer. The
/// shell waits for a command again, whether the number named a task or not.
pub open spec fn choose_index(shell: ShellView, action: Action, line: Seq<char>) -> (
    ShellView,
    FeedbackView,
) {
    match index_in(line, shell.tasks.len()) {
        None => (
            ShellView { mode: Mode::Command, ..shell },
            failed(ShellError::InvalidIndex, "Invalid task number. Please try again."@, false),
        ),
        Some(index) => {
            let tasks = acted(shell.tasks, action, index as int);
            (
                ShellView { tasks, mode: Mode::Command, title: shell.title },
                done(confirmation(action, tasks)),
            )
        },
    }
}

/// The shell after a line of input, and its answer to the line.
pub open spec fn transition(shell: ShellView, line: Seq<char>) -> (ShellView, FeedbackView) {
    match shell.mode {
        Mode::Command => choose_command(shell, line),
        Mode::Title => (
            ShellView { mode: Mode::Description, title: trimmed(line), ..shell },
            silence(),
        ),
        Mode::Description => (
            ShellView {
                tasks: shell.tasks.push(
                    TaskView { title: shell.title, description: trimmed(line), is_done: false },
                ),
                mode: Mode::Command,
                title: Seq::<char>::empty(),
            },
            done(seq![clear_screen()] + report(Tone::Success, "Task added successfully"@)),
        ),
        Mode::Index(action) => choose_index(shell, action, line),
        Mode::Finished => (shell, silence()),
    }
}

/// Lays out the menu.
pub fn render_menu() -> (spans: Vec<Span>)
    ensures
        views(spans@) == seq![plain(menu_text())],
{
    let mut text = String::from_str("\nPlease choose an option: \n");
    menu_entry(&mut text, "1", "Add task");
    menu_entry(&mut text, "2", "Delete task");
    menu_entry(&mut text, "3", "List tasks");
    menu_entry(&mut text, "4", "Check task");
    menu_entry(&mut text, "5", "Uncheck task");
    menu_entry(&mut text, "Q", "Quit");
    let mut spans: Vec<Span> = Vec::new();
    assert(views(spans@) =~= Seq::<SpanView>::empty());
    show(&mut spans, Span::new(Tone::Plain, text));
    assert(views(spans@) =~= seq![plain(menu_text())]);
    spans
}

/// Appends a line of the menu to `text`.
fn menu_entry(text: &mut String, key: &str, label: &str)
    ensures
        final(text)@ == old(text)@ + menu_line(key@, label@),
{
    text.append(key);
    text.append(" - ");
    text.append(label);
    text.append("\n");
    assert(text@ =~= old(text)@ + menu_line(key@, label@));
}

impl Feedback {
    /// Nothing went wrong; `output` is shown.
    fn done(output: Vec<Span>) -> (feedback: Feedback)
        ensures
            feedback@ == done(views(output@)),
    {
        Feedback { error: None, output }
    }

    /// `error` is reported with `message`, on a cleared screen if `clear`
    /// says so.
    fn failed(error: ShellError, message: &str, clear: bool) -> (feedback: Feedback)
        ensures
            feedback@ == failed(error, message@, clear),
    {
        let mut output: Vec<Span> = Vec::new();
        assert(views(output@) =~= Seq::<SpanView>::empty());
        if clear {
            show_clear(&mut output);
        }
        show_report(&mut output, Tone::Error, message);
        assert(views(output@) =~= failed(error, message@, clear).output);
        Feedback { error: Some(error), output }
    }
}

impl Shell {
    /// A shell with an empty store, waiting for a command.
    pub fn new() -> (shell: Shell)
        ensures
            shell@ == (ShellView {
                tasks: Seq::<TaskView>::empty(),
                mode: Mode::Command,
                title: Seq::<char>::empty(),
            }),
            consistent(shell@),
    {
        Shell { store: TaskStore::new(), mode: Mode::Command, title: String::new() }
    }

    /// The store.
    pub fn store(&self) -> (store: &TaskStore)
        ensures
            store@ == self@.tasks,
    {
        &self.store
    }

    /// What the shell takes the next line for.
    pub fn mode(&self) -> (mode: Mode)
        ensures
            mode == self@.mode,
    {
        self.mode
    }

    /// Whether the user has quit.
    pub fn is_finished(&self) -> (finished: bool)
        ensures
            finished == (self@.mode == Mode::Finished),
    {
        match self.mode {
            Mode::Finished => true,
            _ => false,
        }
    }

    /// What to show before the next line is read.
    pub fn prompt(&self) -> (spans: Vec<Span>)
        ensures
            views(spans@) == prompt_of(self@.mode),
    {
        let mut spans: Vec<Span> = Vec::new();
        assert(views(spans@) =~= Seq::<SpanView>::empty());
        match self.mode {
            Mode::Command => {
                show_all(&mut spans, render_menu());
                show(&mut spans, Span::of(Tone::Prompt, "\nChoose an option: "));
            },
            Mode::Title => {
                show(&mut spans, Span::of(Tone::Prompt, "Enter task title: "));
            },
            Mode::Description => {
                show(&mut spans, Span::of(Tone::Prompt, "Enter task description: "));
            },
            Mode::Index(Action::Delete) => {
                show(&mut spans, Span::of(Tone::Prompt, "Enter task number to delete: "));
            },
            Mode::Index(Action::Check) => {
                show(&mut spans, Span::of(Tone::Prompt, "Enter task number to check: "));
            },
            Mode::Index(Action::Uncheck) => {
                show(&mut spans, Span::of(Tone::Prompt, "Enter task number to uncheck: "));
            },
            Mode::Finished => {},
        }
        assert(views(spans@) =~= prompt_of(self@.mode));
        spans
    }

    /// Takes a menu choice.
    fn on_command(&mut self, line: &str) -> (feedback: Feedback)
        requires
            old(self)@.mode == Mode::Command,
        ensures
            (final(self)@, feedback@) == choose_command(old(self)@, line@),
    {
        let mut output: Vec<Span> = Vec::new();
        assert(views(output@) =~= Seq::<SpanView>::empty());
        match parse_command(line) {
            None => Feedback::failed(ShellError::UnrecognizedCommand, "Invalid choice", true),
            Some(Command::Add) => {
                self.mode = Mode::Title;
                Feedback::done(output)
            },
            Some(Command::List) => {
                show_clear(&mut output);
                show_all(&mut output, render_tasks(&self.store));
                assert(views(output@) =~= seq![clear_screen()] + listing(self@.tasks));
                Feedback::done(output)
            },
            Some(Command::Quit) => {
                self.mode = Mode::Finished;
                Feedback::done(output)
            },
            Some(Command::Delete) => {
                if self.store.is_empty() {
                    Feedback::failed(ShellError::EmptyStore, "No tasks to delete.", false)
                } else {
                    self.mode = Mode::Index(Action::Delete);
                    Feedback::done(render_tasks(&self.store))
                }
            },
            Some(Command::Check) => {
                if self.store.is_empty() {
                    Feedback::failed(ShellError::EmptyStore, "No tasks available.", false)
                } else {
                    self.mode = Mode::Index(Action::Check);
                    Feedback::done(render_tasks(&self.store))
                }
            },
            Some(Command::Uncheck) => {
                if self.store.is_empty() {
                    Feedback::failed(ShellError::EmptyStore, "No tasks available.", false)
                } else {
                    self.mode = Mode::Index(Action::Uncheck);
                    Feedback::done(render_tasks(&self.store))
                }
            },
        }
    }

    /// Takes the number of the task to act on.
    fn on_index(&mut self, action: Action, line: &str) -> (feedback: Feedback)
        requires
            old(self)@.mode == Mode::Index(action),
        ensures
            (final(self)@, feedback@) == choose_index(old(self)@, action, line@),
    {
        self.mode = Mode::Command;
        let index = match parse_index(line, self.store.len()) {
            Ok(index) => index,
            Err(_) => {
                return Feedback::failed(
                    ShellError::InvalidIndex,
                    "Invalid task number. Please try again.",
                    false,
                );
            },
        };
        let mut output: Vec<Span> = Vec::new();
        assert(views(output@) =~= Seq::<SpanView>::empty());
        show_clear(&mut output);
        match action {
            Action::Delete => {
                let _ = self.store.delete(index);
                show_report(&mut output, Tone::Success, "Task deleted successfully");
            },
            Action::Check => {
                let _ = self.store.set_done(index, true);
                show_all(&mut output, render_tasks(&self.store));
                show(&mut output, Span::of(Tone::Plain, "\n"));
                show_report(&mut output, Tone::Success, "Task checked successfully");
            },
            Action::Uncheck => {
                let _ = self.store.set_done(index, false);
                show_all(&mut output, render_tasks(&self.store));
                show(&mut output, Span::of(Tone::Plain, "\n"));
                show_report(&mut output, Tone::Success, "Task unchecked successfully");
            },
        }
        assert(views(output@) =~= confirmation(action, self@.tasks));
        Feedback::done(output)
    }

    /// Takes a line of input: the shell moves on, and answers with what to
    /// show and with what went wrong, if anything did.
    pub fn step(&mut self, line: &str) -> (feedback: Feedback)
        ensures
            (final(self)@, feedback@) == transition(old(self)@, line@),
    {
        match self.mode {
            Mode::Command => self.on_command(line),
            Mode::Index(action) => self.on_index(action, line),
            Mode::Title => {
                self.title = trim(line);
                self.mode = Mode::Description;
                let output: Vec<Span> = Vec::new();
                assert(views(output@) =~= Seq::<SpanView>::empty());
                Feedback::done(output)
            },
            Mode::Description => {
                let title = self.title.clone();
                self.title = String::new();
                self.store.add(title, trim(line));
                self.mode = Mode::Command;
                let mut output: Vec<Span> = Vec::new();
                assert(views(output@) =~= Seq::<SpanView>::empty());
                show_clear(&mut output);
                show_report(&mut output, Tone::Success, "Task added successfully");
                assert(views(output@) =~= seq![clear_screen()] + report(
                    Tone::Success,
                    "Task added successfully"@,
                ));
                Feedback::done(output)
            },
            Mode::Finished => {
                let output: Vec<Span> = Vec::new();
                assert(views(output@) =~= Seq::<SpanView>::empty());
                Feedback::done(output)
            },
        }
    }
}

/// What holds of a shell at every point of a session: it waits for the
/// number of a task only while there are tasks, and it keeps a title only
/// while it waits for the description that goes with it.
pub open spec fn consistent(shell: ShellView) -> bool {
    &&& shell.mode is Index ==> shell.tasks.len() > 0
    &&& shell.mode != Mode::Description ==> shell.title.len() == 0
}

/// A line of input leaves a consistent shell consistent.
pub proof fn transition_keeps_consistent(shell: ShellView, line: Seq<char>)
    requires
        consistent(shell),
    ensures
        consistent(transition(shell, line).0),
{
}

/// A line that is answered with an error leaves the store as it was.
pub proof fn error_leaves_store(shell: ShellView, line: Seq<char>)
    requires
        transition(shell, line).1.error is Some,
    ensures
        transition(shell, line).0.tasks == shell.tasks,
{
}

/// A menu choice that is none of the menu's keys changes nothing, and is
/// answered with the message of an invalid choice on a cleared screen.
pub proof fn unrecognized_command_changes_nothing(shell: ShellView, line: Seq<char>)
    requires
        shell.mode == Mode::Command,
        command_in(line) is None,
    ensures
        transition(shell, line).0 == shell,
        transition(shell, line).1 == failed(
            ShellError::UnrecognizedCommand,
            "Invalid choice"@,
            true,
        ),
{
}

/// A command that needs a task changes nothing in an empty store: the
/// shell goes on waiting for a command and reports the empty store.
pub proof fn empty_store_refuses(shell: ShellView, line: Seq<char>)
    requires
        shell.mode == Mode::Command,
        shell.tasks.len() == 0,
        command_in(line) == Some(Command::Delete) || command_in(line) == Some(Command::Check)
            || command_in(line) == Some(Command::Uncheck),
    ensures
        transition(shell, line).0 == shell,
        transition(shell, line).1.error == Some(ShellError::EmptyStore),
{
}

/// Whatever is entered as its description, a new task makes the store one
/// task longer: the task stands at the end, is not done, and bears the
/// title that was entered before.
pub proof fn description_adds_one_task(shell: ShellView, line: Seq<char>)
    requires
        shell.mode == Mode::Description,
    ensures
        transition(shell, line).0.tasks.len() == shell.tasks.len() + 1,
        transition(shell, line).0.tasks.drop_last() == shell.tasks,
        transition(shell, line).0.tasks.last() == (TaskView {
            title: shell.title,
            description: trimmed(line),
            is_done: false,
        }),
        transition(shell, line).1.error is None,
{
    assert(transition(shell, line).0.tasks.drop_last() =~= shell.tasks);
}

/// A line that names no task of the store, because it writes no number or
/// a number that is too large, leaves the store as it was and is answered
/// with an invalid index.
pub proof fn invalid_index_changes_nothing(shell: ShellView, action: Action, line: Seq<char>)
    requires
        shell.mode == Mode::Index(action),
        !is_numeral(trimmed(line)) || digits_value(unsigned(trimmed(line))) >= shell.tasks.len(),
    ensures
        transition(shell, line).0.tasks == shell.tasks,
        transition(shell, line).0.mode == Mode::Command,
        transition(shell, line).1.error == Some(ShellError::InvalidIndex),
{
}

/// A line that names a task to delete makes the store one task shorter,
/// and what is left are the other tasks in their order.
pub proof fn valid_index_deletes_one_task(shell: ShellView, line: Seq<char>)
    requires
        shell.mode == Mode::Index(Action::Delete),
        index_in(line, shell.tasks.len()) is Some,
    ensures
        transition(shell, line).0.tasks == shell.tasks.remove(
            index_in(line, shell.tasks.len())->0 as int,
        ),
        transition(shell, line).0.tasks.len() == shell.tasks.len() - 1,
        transition(shell, line).1.error is None,
{
}

} // verus!
