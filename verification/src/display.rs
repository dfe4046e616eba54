//! What the shell shows: pieces of text, each with the tone in which it is
//! meant.

use crate::store::TaskStore;
use crate::task::{task_text, TaskView};
use crate::text::{center_text, centered, decimal, decimal_text, repeat_char, run};
use vstd::prelude::*;

verus! {

/// The tone of a piece of text. It decides the colour on a terminal and has
/// no other effect.
#[derive(Clone, Copy, Debug, PartialEq, Eq, Structural)]
pub enum Tone {
    /// Text as it is.
    Plain,
    /// Something went wrong.
    Error,
    /// Something was done, or a frame round what is shown.
    Success,
    /// The user is asked for input.
    Prompt,
}

/// A piece of text to show, with its tone.
pub struct Span {
    pub tone: Tone,
    pub text: String,
}

/// The mathematical value of a [`Span`].
pub struct SpanView {
    pub tone: Tone,
    pub text: Seq<char>,
}

impl View for Span {
    type V = SpanView;

    open spec fn view(&self) -> SpanView {
        SpanView { tone: self.tone, text: self.text@ }
    }
}

/// The values of a sequence of spans.
pub open spec fn views(spans: Seq<Span>) -> Seq<SpanView> {
    spans.map_values(|span: Span| span@)
}

/// The width of the banners round the list of tasks.
pub const BANNER_WIDTH: usize = 50;

/// The character that the banners are filled with.
pub const BANNER_FILL: char = '=';

/// A span of text as it is.
pub open spec fn plain(text: Seq<char>) -> SpanView {
    SpanView { tone: Tone::Plain, text }
}

/// A span of `text` in `tone`.
pub open spec fn toned(tone: Tone, text: Seq<char>) -> SpanView {
    SpanView { tone, text }
}

/// The end of a line.
pub open spec fn newline() -> SpanView {
    plain("\n"@)
}

/// The control sequence that clears the terminal and moves the cursor to
/// its first line and column.
pub open spec fn clear_screen() -> SpanView {
    plain("\x1B[2J\x1B[1;1H"@)
}

/// The line of the task at `position`: the position, a dash, the task.
pub open spec fn entry_text(position: nat, task: TaskView) -> Seq<char> {
    decimal_text(position) + " - "@ + task_text(task) + "\n"@
}

/// One line for each task, in order.
pub open spec fn entries(tasks: Seq<TaskView>) -> Seq<SpanView> {
    Seq::new(tasks.len(), |i: int| plain(entry_text(i as nat, tasks[i])))
}

/// The list of tasks as it is shown: under a banner and over a closing
/// line when there are tasks, and a banner that says so when there are none.
pub open spec fn listing(tasks: Seq<TaskView>) -> Seq<SpanView> {
    if tasks.len() == 0 {
        seq![
            newline(),
            toned(Tone::Error, centered("No tasks available"@, BANNER_WIDTH as nat, BANNER_FILL)),
            newline(),
        ]
    } else {
        seq![
            newline(),
            toned(Tone::Success, centered("Tasks"@, BANNER_WIDTH as nat, BANNER_FILL)),
            newline(),
        ] + entries(tasks) + seq![
            toned(Tone::Success, run(BANNER_FILL, BANNER_WIDTH as nat)),
            newline(),
        ]
    }
}

impl Span {
    /// A span of `text` in `tone`.
    pub fn new(tone: Tone, text: String) -> (span: Span)
        ensures
            span@ == toned(tone, text@),
    {
        Span { tone, text }
    }

    /// A span that holds a copy of `text`, in `tone`.
    pub fn of(tone: Tone, text: &str) -> (span: Span)
        ensures
            span@ == toned(tone, text@),
    {
        Span { tone, text: String::from_str(text) }
    }
}

/// Appends `span` to `spans`.
pub(crate) fn show(spans: &mut Vec<Span>, span: Span)
    ensures
        views(final(spans)@) == views(old(spans)@).push(span@),
{
    spans.push(span);
    assert(views(spans@) =~= views(old(spans)@).push(span@));
}

/// Lays out the list of tasks.
pub fn render_tasks(store: &TaskStore) -> (spans: Vec<Span>)
    ensures
        views(spans@) == listing(store@),
{
    let mut spans: Vec<Span> = Vec::new();
    assert(views(spans@) =~= Seq::<SpanView>::empty());
    show(&mut spans, Span::of(Tone::Plain, "\n"));
    if store.is_empty() {
        show(
            &mut spans,
            Span::new(Tone::Error, center_text("No tasks available", BANNER_WIDTH, BANNER_FILL)),
        );
        show(&mut spans, Span::of(Tone::Plain, "\n"));
        assert(views(spans@) =~= listing(store@));
    } else {
        show(&mut spans, Span::new(Tone::Success, center_text("Tasks", BANNER_WIDTH, BANNER_FILL)));
        show(&mut spans, Span::of(Tone::Plain, "\n"));
        let ghost head = views(spans@);
        let mut i: usize = 0;
        while i < store.len()
            invariant
                i <= store@.len(),
                views(spans@) == head + entries(store@).take(i as int),
            decreases store@.len() - i,
        {
            let task = store.get(i).unwrap();
            let mut line = decimal(i);
            line.append(" - ");
            line.append(task.to_string().as_str());
            line.append("\n");
            show(&mut spans, Span::new(Tone::Plain, line));
            i += 1;
            assert(views(spans@) =~= head + entries(store@).take(i as int));
        }
        assert(entries(store@).take(i as int) =~= entries(store@));
        show(&mut spans, Span::new(Tone::Success, repeat_char(BANNER_FILL, BANNER_WIDTH)));
        show(&mut spans, Span::of(Tone::Plain, "\n"));
        assert(views(spans@) =~= listing(store@));
    }
    spans
}

/// Appends the spans of `more` to `spans`.
pub(crate) fn show_all(spans: &mut Vec<Span>, more: Vec<Span>)
    ensures
        views(final(spans)@) == views(old(spans)@) + views(more@),
{
    let mut rest = more;
    spans.append(&mut rest);
    assert(views(spans@) =~= views(old(spans)@) + views(more@));
}

/// Lays out a message on a line of its own.
pub(crate) fn show_report(spans: &mut Vec<Span>, tone: Tone, text: &str)
    ensures
        views(final(spans)@) == views(old(spans)@) + seq![toned(tone, text@), newline()],
{
    show(spans, Span::of(tone, text));
    show(spans, Span::of(Tone::Plain, "\n"));
    assert(views(spans@) =~= views(old(spans)@) + seq![toned(tone, text@), newline()]);
}

/// Lays out the sequence that clears the terminal.
pub(crate) fn show_clear(spans: &mut Vec<Span>)
    ensures
        views(final(spans)@) == views(old(spans)@).push(clear_screen()),
{
    show(spans, Span::of(Tone::Plain, "\x1B[2J\x1B[1;1H"));
}

} // verus!
