//! Reading what the user typed: the menu choice and the number of a task.

use crate::store::InvalidIndex;
use crate::text::{chars_of, decimal_text, digit_char, trim_bounds, trimmed};
use vstd::prelude::*;

verus! {

/// What the user can ask of the shell.
#[derive(Clone, Copy, Debug, PartialEq, Eq, Structural)]
pub enum Command {
    Add,
    Delete,
    List,
    Check,
    Uncheck,
    Quit,
}

/// The command that the key `text` stands for, if any.
pub open spec fn command_of(text: Seq<char>) -> Option<Command> {
    if text.len() != 1 {
        None
    } else if text[0] == '1' {
        Some(Command::Add)
    } else if text[0] == '2' {
        Some(Command::Delete)
    } else if text[0] == '3' {
        Some(Command::List)
    } else if text[0] == '4' {
        Some(Command::Check)
    } else if text[0] == '5' {
        Some(Command::Uncheck)
    } else if text[0] == 'Q' || text[0] == 'q' {
        Some(Command::Quit)
    } else {
        None
    }
}

/// The command that a line of input asks for: the line, without the white
/// space around it, must be exactly one of the menu's keys.
pub open spec fn command_in(line: Seq<char>) -> Option<Command> {
    command_of(trimmed(line))
}

/// Reads a menu choice. `None` says that the line names no command.
pub fn parse_command(line: &str) -> (command: Option<Command>)
    ensures
        command == command_in(line@),
{
    let chars = chars_of(line);
    let (start, end) = trim_bounds(&chars);
    if end - start != 1 {
        return None;
    }
    let key = chars[start];
    assert(trimmed(line@)[0] == key);
    if key == '1' {
        Some(Command::Add)
    } else if key == '2' {
        Some(Command::Delete)
    } else if key == '3' {
        Some(Command::List)
    } else if key == '4' {
        Some(Command::Check)
    } else if key == '5' {
        Some(Command::Uncheck)
    } else if key == 'Q' || key == 'q' {
        Some(Command::Quit)
    } else {
        None
    }
}

/// Whether `c` is one of the ten decimal digits.
pub open spec fn is_digit(c: char) -> bool {
    0x30 <= c as u32 <= 0x39
}

/// What the digit `c` counts for; a character that is no digit counts for
/// nothing.
pub open spec fn digit_value(c: char) -> nat {
    if is_digit(c) {
        (c as u32 - 0x30) as nat
    } else {
        0
    }
}

/// Whether `s` holds digits only.
pub open spec fn all_digits(s: Seq<char>) -> bool {
    forall|i: int| 0 <= i < s.len() ==> is_digit(#[trigger] s[i])
}

/// The number that the digits of `s` write in decimal.
pub open spec fn digits_value(s: Seq<char>) -> nat
    decreases s.len(),
{
    if s.len() == 0 {
        0
    } else {
        digits_value(s.drop_last()) * 10 + digit_value(s.last())
    }
}

/// `s` without the plus sign that may stand before a number.
pub open spec fn unsigned(s: Seq<char>) -> Seq<char> {
    if s.len() > 0 && s[0] == '+' {
        s.drop_first()
    } else {
        s
    }
}

/// Whether `s` writes a number: at least one digit and nothing but digits,
/// behind at most one plus sign.
pub open spec fn is_numeral(s: Seq<char>) -> bool {
    unsigned(s).len() > 0 && all_digits(unsigned(s))
}

/// The position that a line of input names in a store of `count` tasks:
/// the line, without the white space around it, must write a number below
/// `count`.
pub open spec fn index_in(line: Seq<char>, count: nat) -> Option<nat> {
    let text = trimmed(line);
    if is_numeral(text) && digits_value(unsigned(text)) < count {
        Some(digits_value(unsigned(text)))
    } else {
        None
    }
}

/// A number is at least as large as the number that any of its prefixes
/// writes.
pub proof fn digits_value_grows(s: Seq<char>, k: int)
    requires
        0 <= k <= s.len(),
    ensures
        digits_value(s.take(k)) <= digits_value(s),
    decreases s.len(),
{
    if k == s.len() {
        assert(s.take(k) =~= s);
    } else {
        assert(s.drop_last().take(k) =~= s.take(k));
        digits_value_grows(s.drop_last(), k);
    }
}

/// The decimal numeral of a number holds digits only, at least one, and
/// writes that number.
pub proof fn decimal_text_writes(n: nat)
    ensures
        decimal_text(n).len() > 0,
        all_digits(decimal_text(n)),
        digits_value(decimal_text(n)) == n,
    decreases n,
{
    let text = decimal_text(n);
    if n < 10 {
        assert(is_digit(digit_char(n)));
        assert(text.drop_last() =~= Seq::<char>::empty());
        assert(digits_value(text.drop_last()) == 0);
    } else {
        decimal_text_writes(n / 10);
        assert(is_digit(digit_char(n % 10)));
        assert(text.drop_last() =~= decimal_text(n / 10));
    }
}

/// The position that the list shows beside a task names that task when it
/// is entered as it is shown.
pub proof fn listed_position_reads_back(position: nat, count: nat)
    requires
        position < count,
    ensures
        index_in(decimal_text(position), count) == Some(position),
{
    let text = decimal_text(position);
    decimal_text_writes(position);
    assert(is_digit(text.first()));
    assert(is_digit(text.last()));
}

/// Reads the number of a task in a store of `count` tasks.
pub fn parse_index(line: &str, count: usize) -> (result: Result<usize, InvalidIndex>)
    ensures
        match index_in(line@, count as nat) {
            Some(index) => result == Ok::<usize, InvalidIndex>(index as usize),
            None => result == Err::<usize, InvalidIndex>(InvalidIndex),
        },
        result matches Ok(index) ==> index < count,
{
    let chars = chars_of(line);
    let (start, end) = trim_bounds(&chars);
    let mut i: usize = start;
    if i < end && chars[i] == '+' {
        i += 1;
    }
    let first = i;
    let ghost digits = chars@.subrange(first as int, end as int);
    assert(unsigned(trimmed(line@)) =~= digits);
    if first == end || count == 0 {
        return Err(InvalidIndex);
    }
    let mut value: usize = 0;
    assert(digits.take(0) =~= Seq::<char>::empty());
    while i < end
        invariant
            first <= i <= end <= chars.len(),
            digits == chars@.subrange(first as int, end as int),
            digits == unsigned(trimmed(line@)),
            all_digits(digits.take(i - first)),
            value == digits_value(digits.take(i - first)),
            value < count,
        decreases end - i,
    {
        let c = chars[i];
        let code: u32 = c as u32;
        assert(digits[i - first] == c);
        if code < 0x30 || code > 0x39 {
            assert(!is_digit(digits[i - first]));
            return Err(InvalidIndex);
        }
        let next: u128 = (value as u128) * 10 + ((code - 0x30) as u128);
        proof {
            let longer = digits.take(i - first + 1);
            assert(longer.drop_last() =~= digits.take(i - first));
            assert(longer.last() == c);
            assert(digits_value(longer) == next);
            digits_value_grows(digits, i - first + 1);
        }
        if next >= count as u128 {
            return Err(InvalidIndex);
        }
        value = next as usize;
        i += 1;
    }
    assert(digits.take(i - first) =~= digits);
    Ok(value)
}

} // verus!
