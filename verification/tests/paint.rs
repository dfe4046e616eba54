use tasklist::display::{Span, Tone};
use tasklist::paint::paint;

#[test]
fn plain_text_is_never_coloured() {
    colored::control::set_override(true);
    assert_eq!(paint(&Span::of(Tone::Plain, "0 - [ ] a\n\tb\n")), "0 - [ ] a\n\tb\n");
    assert_eq!(paint(&Span::of(Tone::Plain, "\x1B[2J\x1B[1;1H")), "\x1B[2J\x1B[1;1H");
    assert_eq!(paint(&Span::of(Tone::Plain, "")), "");
}

#[test]
fn errors_are_red_on_a_terminal() {
    colored::control::set_override(true);
    assert_eq!(paint(&Span::of(Tone::Error, "Invalid choice")), "\x1B[31mInvalid choice\x1B[0m");
}

#[test]
fn successes_are_green_on_a_terminal() {
    colored::control::set_override(true);
    assert_eq!(
        paint(&Span::of(Tone::Success, "Task added successfully")),
        "\x1B[32mTask added successfully\x1B[0m"
    );
}

#[test]
fn prompts_are_blue_on_a_terminal() {
    colored::control::set_override(true);
    assert_eq!(
        paint(&Span::of(Tone::Prompt, "\nChoose an option: ")),
        "\x1B[34m\nChoose an option: \x1B[0m"
    );
}

#[test]
fn without_colour_the_text_is_unchanged() {
    colored::control::set_override(false);
    assert_eq!(paint(&Span::of(Tone::Error, "Invalid choice")), "Invalid choice");
    assert_eq!(paint(&Span::of(Tone::Success, "ok")), "ok");
    assert_eq!(paint(&Span::of(Tone::Prompt, "? ")), "? ");
}

#[test]
fn painted_text_has_one_of_the_stated_forms() {
    colored::control::unset_override();
    let text = "No tasks available.";
    let out = paint(&Span::of(Tone::Error, text));
    let forms = [
        String::from(text),
        format!("\x1B[31m{}\x1B[0m", text),
        format!("{}\x1B[0m", text),
    ];
    assert!(forms.contains(&out), "{:?}", out);
}
