//! Building blocks for the text that the shell shows.

use vstd::prelude::*;

verus! {

/// `String::push` of the standard library: the character is appended, and
/// nothing else changes.
#[verifier::external_body]
fn push_char(text: &mut String, c: char)
    ensures
        final(text)@ == old(text)@.push(c),
{
    text.push(c);
}

/// `n` copies of `c`.
pub open spec fn run(c: char, n: nat) -> Seq<char> {
    Seq::new(n, |i: int| c)
}

/// A string of `n` copies of `c`.
pub fn repeat_char(c: char, n: usize) -> (text: String)
    ensures
        text@ == run(c, n as nat),
{
    let mut text = String::new();
    let mut i: usize = 0;
    while i < n
        invariant
            i <= n,
            text@ == run(c, i as nat),
        decreases n - i,
    {
        push_char(&mut text, c);
        i += 1;
        assert(text@ =~= run(c, i as nat));
    }
    text
}

/// The characters of `text`, in order.
pub fn chars_of(text: &str) -> (chars: Vec<char>)
    ensures
        chars@ == text@,
{
    let mut chars: Vec<char> = Vec::new();
    for c in it: text.chars()
        invariant
            it.seq() == text@,
            chars@ == text@.take(it.index()),
    {
        chars.push(c);
        assert(chars@ =~= text@.take(it.index() + 1));
    }
    assert(chars@ =~= text@);
    chars
}

/// The string made of `chars[from..to]`.
pub fn string_of(chars: &Vec<char>, from: usize, to: usize) -> (text: String)
    requires
        from <= to <= chars.len(),
    ensures
        text@ == chars@.subrange(from as int, to as int),
{
    let mut text = String::new();
    let mut i: usize = from;
    while i < to
        invariant
            from <= i <= to <= chars.len(),
            text@ == chars@.subrange(from as int, i as int),
        decreases to - i,
    {
        push_char(&mut text, chars[i]);
        i += 1;
        assert(text@ =~= chars@.subrange(from as int, i as int));
    }
    text
}

/// How many fill characters `center_text` adds around `text`: what `width`
/// leaves once the bytes of `text` in UTF-8 are taken from it, and nothing
/// when `text` is already as long.
pub open spec fn padding(text: Seq<char>, width: nat) -> nat {
    let used = vstd::utf8::encode_utf8(text).len();
    if used <= width {
        (width - used) as nat
    } else {
        0
    }
}

/// `text` between two runs of `fill`. The left run takes half of the
/// padding, rounded down; the right run takes the rest.
pub open spec fn centered(text: Seq<char>, width: nat, fill: char) -> Seq<char> {
    let pad = padding(text, width);
    run(fill, pad / 2) + text + run(fill, (pad - pad / 2) as nat)
}

/// Centres `text` in a field of `width`, padding with `fillchar`.
pub fn center_text(text: &str, width: usize, fillchar: char) -> (banner: String)
    ensures
        banner@ == centered(text@, width as nat, fillchar),
{
    let padding = width.saturating_sub(text.as_bytes().len());
    let left_pad = padding / 2;
    let right_pad = padding - left_pad;
    let mut banner = repeat_char(fillchar, left_pad);
    let right = repeat_char(fillchar, right_pad);
    banner.append(text);
    banner.append(right.as_str());
    banner
}

/// A text of ASCII characters centred in a field at least as wide fills the
/// field exactly.
pub proof fn centered_fills_width(text: Seq<char>, width: nat, fill: char)
    requires
        vstd::utf8::is_ascii_chars(text),
        text.len() <= width,
    ensures
        centered(text, width, fill).len() == width,
{
    vstd::utf8::is_ascii_chars_encode_utf8(text);
}

/// The character that stands for the digit `d`.
pub open spec fn digit_char(d: nat) -> char
    recommends
        d < 10,
{
    ((0x30 + d) as u8) as char
}

/// The decimal numeral of `n`: no sign, no leading zero but for `0` itself.
pub open spec fn decimal_text(n: nat) -> Seq<char>
    decreases n,
{
    if n < 10 {
        seq![digit_char(n)]
    } else {
        decimal_text(n / 10).push(digit_char(n % 10))
    }
}

/// Writes `n` in decimal.
pub fn decimal(n: usize) -> (text: String)
    ensures
        text@ == decimal_text(n as nat),
    decreases n,
{
    let low: u8 = (n % 10) as u8;
    let c: char = (0x30u8 + low) as char;
    if n < 10 {
        let mut text = String::new();
        push_char(&mut text, c);
        assert(text@ =~= seq![digit_char(n as nat)]);
        text
    } else {
        let mut text = decimal(n / 10);
        push_char(&mut text, c);
        text
    }
}

/// Whether `c` is white space: a character with the Unicode property
/// `White_Space`.
pub open spec fn is_space(c: char) -> bool {
    let u = c as u32;
    ||| 0x09 <= u <= 0x0D
    ||| u == 0x20
    ||| u == 0x85
    ||| u == 0xA0
    ||| u == 0x1680
    ||| 0x2000 <= u <= 0x200A
    ||| u == 0x2028
    ||| u == 0x2029
    ||| u == 0x202F
    ||| u == 0x205F
    ||| u == 0x3000
}

/// Tells whether `c` is white space.
pub fn is_whitespace(c: char) -> (space: bool)
    ensures
        space == is_space(c),
{
    let u: u32 = c as u32;
    (0x09 <= u && u <= 0x0D) || u == 0x20 || u == 0x85 || u == 0xA0 || u == 0x1680 || (0x2000 <= u
        && u <= 0x200A) || u == 0x2028 || u == 0x2029 || u == 0x202F || u == 0x205F || u == 0x3000
}

/// `s` without the white space at its start.
pub open spec fn trimmed_start(s: Seq<char>) -> Seq<char>
    decreases s.len(),
{
    if s.len() > 0 && is_space(s.first()) {
        trimmed_start(s.drop_first())
    } else {
        s
    }
}

/// `s` without the white space at its end.
pub open spec fn trimmed_end(s: Seq<char>) -> Seq<char>
    decreases s.len(),
{
    if s.len() > 0 && is_space(s.last()) {
        trimmed_end(s.drop_last())
    } else {
        s
    }
}

/// `s` without the white space at either end.
pub open spec fn trimmed(s: Seq<char>) -> Seq<char> {
    trimmed_end(trimmed_start(s))
}

/// What `trimmed_start` leaves is the end of the text, and does not start
/// with white space.
proof fn trimmed_start_is_suffix(s: Seq<char>)
    ensures
        trimmed_start(s).len() <= s.len(),
        trimmed_start(s) == s.skip(s.len() - trimmed_start(s).len()),
        trimmed_start(s).len() > 0 ==> !is_space(trimmed_start(s).first()),
    decreases s.len(),
{
    if s.len() > 0 && is_space(s.first()) {
        trimmed_start_is_suffix(s.drop_first());
        let t = trimmed_start(s);
        assert(t =~= s.skip(s.len() - t.len()));
    } else {
        assert(s =~= s.skip(0));
    }
}

/// What `trimmed_end` leaves is the start of the text, and does not end
/// with white space.
proof fn trimmed_end_is_prefix(s: Seq<char>)
    ensures
        trimmed_end(s).len() <= s.len(),
        trimmed_end(s) == s.take(trimmed_end(s).len() as int),
        trimmed_end(s).len() > 0 ==> !is_space(trimmed_end(s).last()),
    decreases s.len(),
{
    if s.len() > 0 && is_space(s.last()) {
        trimmed_end_is_prefix(s.drop_last());
        let t = trimmed_end(s);
        assert(t =~= s.take(t.len() as int));
    } else {
        assert(s =~= s.take(s.len() as int));
    }
}

/// Everything before what `trimmed_start` leaves is white space.
proof fn leading_is_space(s: Seq<char>)
    ensures
        forall|i: int| 0 <= i < s.len() - trimmed_start(s).len() ==> is_space(#[trigger] s[i]),
    decreases s.len(),
{
    trimmed_start_is_suffix(s);
    if s.len() > 0 && is_space(s.first()) {
        leading_is_space(s.drop_first());
        trimmed_start_is_suffix(s.drop_first());
        assert forall|i: int| 0 <= i < s.len() - trimmed_start(s).len() implies is_space(
            #[trigger] s[i],
        ) by {
            if i > 0 {
                assert(s[i] == s.drop_first()[i - 1]);
            }
        }
    }
}

/// Everything behind what `trimmed_end` leaves is white space.
proof fn trailing_is_space(s: Seq<char>)
    ensures
        forall|i: int| trimmed_end(s).len() <= i < s.len() ==> is_space(#[trigger] s[i]),
    decreases s.len(),
{
    trimmed_end_is_prefix(s);
    if s.len() > 0 && is_space(s.last()) {
        trailing_is_space(s.drop_last());
        trimmed_end_is_prefix(s.drop_last());
        assert forall|i: int| trimmed_end(s).len() <= i < s.len() implies is_space(
            #[trigger] s[i],
        ) by {
            if i < s.len() - 1 {
                assert(s[i] == s.drop_last()[i]);
            }
        }
    }
}

/// A trimmed text is a stretch of the text it was taken from, with only
/// white space before it and behind it, and it neither starts nor ends
/// with white space.
pub proof fn trimmed_is_the_core(s: Seq<char>) -> (start: int)
    ensures
        0 <= start <= start + trimmed(s).len() <= s.len(),
        trimmed(s) == s.subrange(start, start + trimmed(s).len()),
        forall|i: int| 0 <= i < start ==> is_space(#[trigger] s[i]),
        forall|i: int| start + trimmed(s).len() <= i < s.len() ==> is_space(#[trigger] s[i]),
        trimmed(s).len() > 0 ==> !is_space(trimmed(s).first()) && !is_space(trimmed(s).last()),
{
    let rest = trimmed_start(s);
    let core = trimmed(s);
    trimmed_start_is_suffix(s);
    trimmed_end_is_prefix(rest);
    let start = s.len() - rest.len();
    assert(core =~= s.subrange(start, start + core.len()));
    leading_is_space(s);
    trailing_is_space(rest);
    assert forall|i: int| start + core.len() <= i < s.len() implies is_space(#[trigger] s[i]) by {
        assert(s[i] == rest[i - start]);
    }
    start
}

/// Trimming a trimmed text changes nothing.
pub proof fn trimmed_twice(s: Seq<char>)
    ensures
        trimmed(trimmed(s)) == trimmed(s),
{
    let _ = trimmed_is_the_core(s);
}

/// Where the text of `chars` without the white space at either end starts
/// and ends.
pub fn trim_bounds(chars: &Vec<char>) -> (bounds: (usize, usize))
    ensures
        bounds.0 <= bounds.1 <= chars.len(),
        chars@.subrange(bounds.0 as int, bounds.1 as int) == trimmed(chars@),
{
    let len = chars.len();
    let mut start: usize = 0;
    assert(chars@.subrange(0, len as int) =~= chars@);
    while start < len && is_whitespace(chars[start])
        invariant
            start <= len == chars.len(),
            trimmed_start(chars@) == trimmed_start(chars@.subrange(start as int, len as int)),
        decreases len - start,
    {
        assert(chars@.subrange(start as int, len as int).drop_first() =~= chars@.subrange(
            start + 1,
            len as int,
        ));
        start += 1;
    }
    let ghost rest = chars@.subrange(start as int, len as int);
    assert(trimmed_start(chars@) == rest);
    let mut end: usize = len;
    while start < end && is_whitespace(chars[end - 1])
        invariant
            start <= end <= len == chars.len(),
            trimmed_end(rest) == trimmed_end(chars@.subrange(start as int, end as int)),
            rest == chars@.subrange(start as int, len as int),
        decreases end,
    {
        assert(chars@.subrange(start as int, end as int).drop_last() =~= chars@.subrange(
            start as int,
            end - 1,
        ));
        end -= 1;
    }
    (start, end)
}

/// Removes the white space at both ends of `text`.
pub fn trim(text: &str) -> (core: String)
    ensures
        core@ == trimmed(text@),
{
    let chars = chars_of(text);
    let (start, end) = trim_bounds(&chars);
    string_of(&chars, start, end)
}

} // verus!
