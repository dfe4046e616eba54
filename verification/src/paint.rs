//! Colour for a terminal: the tone of a span becomes the colour of its text.

use crate::display::{listing, Span, Tone, BANNER_FILL, BANNER_WIDTH};
use crate::shell::{prompt_of, transition, Mode, ShellView};
use crate::task::TaskView;
use crate::text::{centered, padding};
use colored::Colorize;
use vstd::prelude::*;

verus! {

/// The control sequence that ends a stretch of coloured text.
pub open spec fn reset_code() -> Seq<char> {
    "\x1B[0m"@
}

/// The control sequence that starts text in the colour of `tone`: red for
/// an error, green for a success, blue for a prompt.
pub open spec fn colour_code(tone: Tone) -> Seq<char> {
    match tone {
        Tone::Plain => Seq::<char>::empty(),
        Tone::Error => "\x1B[31m"@,
        Tone::Success => "\x1B[32m"@,
        Tone::Prompt => "\x1B[34m"@,
    }
}

/// Whether `text` holds the character that starts a control sequence.
pub open spec fn has_escape(text: Seq<char>) -> bool {
    text.contains('\x1B')
}

/// The forms in which coloured text comes back. Whether colour is used at
/// all is decided outside this library, by the terminal and the environment
/// of the process, and it is asked anew for the start of the text and for
/// its end: so the text may come back as it is, between the colour's code
/// and the reset code, or before the reset code alone.
pub open spec fn is_painted(code: Seq<char>, text: Seq<char>, out: Seq<char>) -> bool {
    ||| out == text
    ||| out == code + text + reset_code()
    ||| out == text + reset_code()
}

/// `colored::Colorize::red` on a `&str`, and the `Display` of the
/// `ColoredString` that it gives. For a text without an escape character
/// the result is one of the forms of `is_painted`, with the code of red;
/// of a text that holds one, nothing is claimed.
#[verifier::external_body]
fn red(text: &str) -> (out: String)
    ensures
        !has_escape(text@) ==> is_painted("\x1B[31m"@, text@, out@),
{
    text.red().to_string()
}

/// `colored::Colorize::green` on a `&str`, and the `Display` of the
/// `ColoredString` that it gives. For a text without an escape character
/// the result is one of the forms of `is_painted`, with the code of green;
/// of a text that holds one, nothing is claimed.
#[verifier::external_body]
fn green(text: &str) -> (out: String)
    ensures
        !has_escape(text@) ==> is_painted("\x1B[32m"@, text@, out@),
{
    text.green().to_string()
}

/// `colored::Colorize::blue` on a `&str`, and the `Display` of the
/// `ColoredString` that it gives. For a text without an escape character
/// the result is one of the forms of `is_painted`, with the code of blue;
/// of a text that holds one, nothing is claimed.
#[verifier::external_body]
fn blue(text: &str) -> (out: String)
    ensures
        !has_escape(text@) ==> is_painted("\x1B[34m"@, text@, out@),
{
    text.blue().to_string()
}

/// The text of `span` as it is written to the terminal: plain text as it
/// is, any other in the colour of its tone.
pub fn paint(span: &Span) -> (out: String)
    ensures
        span@.tone == Tone::Plain ==> out@ == span@.text,
        span@.tone != Tone::Plain && !has_escape(span@.text) ==> is_painted(
            colour_code(span@.tone),
            span@.text,
            out@,
        ),
{
    match span.tone {
        Tone::Plain => span.text.clone(),
        Tone::Error => red(span.text.as_str()),
        Tone::Success => green(span.text.as_str()),
        Tone::Prompt => blue(span.text.as_str()),
    }
}

/// A text centred between runs of the banners' fill character has no
/// escape character unless the text itself has one.
proof fn banner_has_no_escape(text: Seq<char>)
    requires
        !has_escape(text),
    ensures
        !has_escape(centered(text, BANNER_WIDTH as nat, BANNER_FILL)),
{
    let banner = centered(text, BANNER_WIDTH as nat, BANNER_FILL);
    assert forall|i: int| 0 <= i < banner.len() implies banner[i] != '\x1B' by {
        if banner[i] == '\x1B' {
            let pad = padding(text, BANNER_WIDTH as nat);
            let k = i - pad / 2;
            if 0 <= k < text.len() {
                assert(text[k] == banner[i]);
                assert(text.contains('\x1B'));
            }
        }
    }
}

/// Nothing that the list of tasks shows in colour holds an escape
/// character.
pub proof fn listing_colours_are_clean(tasks: Seq<TaskView>, i: int)
    requires
        0 <= i < listing(tasks).len(),
    ensures
        listing(tasks)[i].tone != Tone::Plain ==> !has_escape(listing(tasks)[i].text),
{
    reveal_strlit("No tasks available");
    reveal_strlit("Tasks");
    banner_has_no_escape("No tasks available"@);
    banner_has_no_escape("Tasks"@);
}

/// No question that the shell asks holds an escape character.
pub proof fn prompt_colours_are_clean(mode: Mode, i: int)
    requires
        0 <= i < prompt_of(mode).len(),
    ensures
        prompt_of(mode)[i].tone != Tone::Plain ==> !has_escape(prompt_of(mode)[i].text),
{
    reveal_strlit("\nChoose an option: ");
    reveal_strlit("Enter task title: ");
    reveal_strlit("Enter task description: ");
    reveal_strlit("Enter task number to delete: ");
    reveal_strlit("Enter task number to check: ");
    reveal_strlit("Enter task number to uncheck: ");
}

/// Nothing that the shell answers in colour holds an escape character,
/// whatever the tasks hold and whatever was entered: the text of the user
/// is only ever shown plain. So `paint` gives each coloured span of the
/// shell in one of the forms of `is_painted`.
pub proof fn answer_colours_are_clean(shell: ShellView, line: Seq<char>, i: int)
    requires
        0 <= i < transition(shell, line).1.output.len(),
    ensures
        transition(shell, line).1.output[i].tone != Tone::Plain ==> !has_escape(
            transition(shell, line).1.output[i].text,
        ),
{
    reveal_strlit("Invalid choice");
    reveal_strlit("No tasks to delete.");
    reveal_strlit("No tasks available.");
    reveal_strlit("Invalid task number. Please try again.");
    reveal_strlit("Task added successfully");
    reveal_strlit("Task deleted successfully");
    reveal_strlit("Task checked successfully");
    reveal_strlit("Task unchecked successfully");
    let next = transition(shell, line).0;
    if 0 <= i < listing(shell.tasks).len() {
        listing_colours_are_clean(shell.tasks, i);
    }
    if 0 <= i - 1 < listing(shell.tasks).len() {
        listing_colours_are_clean(shell.tasks, i - 1);
    }
    if 0 <= i - 1 < listing(next.tasks).len() {
        listing_colours_are_clean(next.tasks, i - 1);
    }
}

} // verus!
