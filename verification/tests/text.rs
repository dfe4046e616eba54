use tasklist::text::{
    center_text, chars_of, decimal, is_whitespace, repeat_char, string_of, trim, trim_bounds,
};

#[test]
fn empty_banner_is_centred_in_fifty() {
    let banner = center_text("No tasks available", 50, '=');
    assert_eq!(banner, "================No tasks available================");
    assert_eq!(banner.chars().count(), 50);
}

#[test]
fn odd_padding_goes_to_the_right() {
    let banner = center_text("Tasks", 50, '=');
    assert_eq!(banner, "======================Tasks=======================");
    assert_eq!(banner.chars().count(), 50);
    assert_eq!(center_text("ab", 5, '-'), "-ab--");
    assert_eq!(center_text("a", 2, '*'), "a*");
}

#[test]
fn text_as_wide_as_the_field_is_unchanged() {
    assert_eq!(center_text("abc", 3, '='), "abc");
    assert_eq!(center_text("abcdef", 3, '='), "abcdef");
    assert_eq!(center_text("abc", 0, '='), "abc");
    assert_eq!(center_text("", 0, '='), "");
}

#[test]
fn empty_text_gives_the_fill_alone() {
    assert_eq!(center_text("", 4, '.'), "....");
    assert_eq!(center_text("", 5, '.'), ".....");
}

#[test]
fn width_counts_the_bytes_of_the_text() {
    // "é" takes two bytes: of a width of 6, 4 are left to fill.
    assert_eq!(center_text("é", 6, '='), "==é==");
    assert_eq!(center_text("日本", 8, ' '), " 日本 ");
    assert_eq!(center_text("ab", 6, 'é'), "ééabéé");
}

#[test]
fn repeat_char_repeats() {
    assert_eq!(repeat_char('=', 0), "");
    assert_eq!(repeat_char('=', 3), "===");
    assert_eq!(repeat_char('日', 2), "日日");
    assert_eq!(repeat_char('=', 50), "=".repeat(50));
}

#[test]
fn decimal_writes_numbers() {
    assert_eq!(decimal(0), "0");
    assert_eq!(decimal(7), "7");
    assert_eq!(decimal(10), "10");
    assert_eq!(decimal(409), "409");
    assert_eq!(decimal(usize::MAX), usize::MAX.to_string());
    for n in 0..2000usize {
        assert_eq!(decimal(n), n.to_string());
    }
}

#[test]
fn whitespace_follows_unicode() {
    for code in 0..=0x10FFFFu32 {
        if let Some(c) = char::from_u32(code) {
            assert_eq!(is_whitespace(c), c.is_whitespace(), "U+{:04X}", code);
        }
    }
}

#[test]
fn trim_removes_outer_whitespace_only() {
    assert_eq!(trim("  Buy milk \n"), "Buy milk");
    assert_eq!(trim("\t a  b \r\n"), "a  b");
    assert_eq!(trim("abc"), "abc");
    assert_eq!(trim(""), "");
    assert_eq!(trim(" \t\n"), "");
    assert_eq!(trim("\u{3000}x\u{a0}"), "x");
    assert_eq!(trim(" é "), "é");
}

#[test]
fn trim_agrees_with_the_standard_library() {
    let samples = [
        "", " ", "a", " a", "a ", "  a b  ", "\n\n", "\u{2028}q\u{2029}", "\u{200b}x\u{200b}",
        "\u{85}1\u{1680}", " 日本語 ", "\u{feff}x", "x\u{180e}",
    ];
    for sample in samples {
        assert_eq!(trim(sample), sample.trim(), "{:?}", sample);
    }
}

#[test]
fn trim_bounds_frame_the_core() {
    let chars = chars_of("  ab c ");
    assert_eq!(trim_bounds(&chars), (2, 6));
    let blank = chars_of("   ");
    let (start, end) = trim_bounds(&blank);
    assert_eq!(start, end);
    assert_eq!(trim_bounds(&chars_of("")), (0, 0));
}

#[test]
fn chars_and_strings_convert() {
    assert_eq!(chars_of("aé日"), vec!['a', 'é', '日']);
    assert!(chars_of("").is_empty());
    let chars = chars_of("hello");
    assert_eq!(string_of(&chars, 1, 4), "ell");
    assert_eq!(string_of(&chars, 0, 5), "hello");
    assert_eq!(string_of(&chars, 2, 2), "");
}
