use tasklist::display::{render_tasks, Span, Tone, BANNER_FILL, BANNER_WIDTH};
use tasklist::store::TaskStore;

fn pairs(spans: &[Span]) -> Vec<(Tone, &str)> {
    spans.iter().map(|span| (span.tone, span.text.as_str())).collect()
}

#[test]
fn banner_is_fifty_equal_signs_wide() {
    assert_eq!(BANNER_WIDTH, 50);
    assert_eq!(BANNER_FILL, '=');
}

#[test]
fn span_constructors_keep_tone_and_text() {
    let span = Span::new(Tone::Error, String::from("no"));
    assert_eq!(span.tone, Tone::Error);
    assert_eq!(span.text, "no");
    let span = Span::of(Tone::Prompt, "yes?");
    assert_eq!(span.tone, Tone::Prompt);
    assert_eq!(span.text, "yes?");
}

#[test]
fn empty_store_shows_the_empty_banner() {
    let store = TaskStore::new();
    let spans = render_tasks(&store);
    assert_eq!(
        pairs(&spans),
        vec![
            (Tone::Plain, "\n"),
            (Tone::Error, "================No tasks available================"),
            (Tone::Plain, "\n"),
        ]
    );
}

#[test]
fn one_task_is_listed_with_its_position() {
    let mut store = TaskStore::new();
    store.add(String::from("Buy milk"), String::from("2%"));
    let spans = render_tasks(&store);
    assert_eq!(
        pairs(&spans),
        vec![
            (Tone::Plain, "\n"),
            (Tone::Success, "======================Tasks======================="),
            (Tone::Plain, "\n"),
            (Tone::Plain, "0 - [ ] Buy milk\n\t2%\n"),
            (Tone::Success, "=================================================="),
            (Tone::Plain, "\n"),
        ]
    );
}

#[test]
fn tasks_are_listed_in_order_with_their_markers() {
    let mut store = TaskStore::new();
    for i in 0..12 {
        store.add(format!("t{}", i), format!("d{}", i));
    }
    store.set_done(10, true).unwrap();
    let spans = render_tasks(&store);
    assert_eq!(spans.len(), 3 + 12 + 2);
    assert_eq!(spans[3].text, "0 - [ ] t0\n\td0\n");
    assert_eq!(spans[12].text, "9 - [ ] t9\n\td9\n");
    assert_eq!(spans[13].text, "10 - [*] t10\n\td10\n");
    assert_eq!(spans[14].text, "11 - [ ] t11\n\td11\n");
    for span in &spans[3..15] {
        assert_eq!(span.tone, Tone::Plain);
    }
    assert_eq!(spans[15].text, "=".repeat(50));
}
