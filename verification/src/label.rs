//! The short texts shown in calendar cells: weekday letters, day numbers and
//! blanks.

use vstd::prelude::*;

verus! {

/// `String::push` of the standard library: the character is appended to the
/// end of the string, and nothing else of the string changes.
pub assume_specification[ String::push ](text: &mut String, ch: char)
    ensures
        final(text)@ == old(text)@.push(ch),
;

/// The character of a decimal digit, 0 to 9.
pub open spec fn digit_char(digit: int) -> char {
    if digit == 0 {
        '0'
    } else if digit == 1 {
        '1'
    } else if digit == 2 {
        '2'
    } else if digit == 3 {
        '3'
    } else if digit == 4 {
        '4'
    } else if digit == 5 {
        '5'
    } else if digit == 6 {
        '6'
    } else if digit == 7 {
        '7'
    } else if digit == 8 {
        '8'
    } else {
        '9'
    }
}

/// The plain decimal representation of a number: no sign, no leading zero
/// but for zero itself.
pub open spec fn decimal(n: nat) -> Seq<char>
    decreases n,
{
    if n < 10 {
        seq![digit_char(n as int)]
    } else {
        decimal(n / 10).push(digit_char((n % 10) as int))
    }
}

/// The label of a day number: numbers 0 to 9 are padded with a zero to two
/// characters, larger ones are written in plain decimal.
pub open spec fn day_label_spec(n: nat) -> Seq<char> {
    if n <= 9 {
        seq!['0', digit_char(n as int)]
    } else {
        decimal(n)
    }
}

/// The label of a cell that shows nothing: two spaces.
pub open spec fn blank_label_spec() -> Seq<char> {
    seq![' ', ' ']
}

/// The letter of a weekday, by its index from Sunday; indices go round
/// after Saturday.
pub open spec fn weekday_letter(weekday: int) -> char {
    let index = weekday % 7;
    if index == 0 || index == 6 {
        'S'
    } else if index == 1 {
        'M'
    } else if index == 3 {
        'W'
    } else if index == 5 {
        'F'
    } else {
        'T'
    }
}

/// The label of a weekday's column: its letter and a space.
pub open spec fn header_label_spec(weekday: int) -> Seq<char> {
    seq![weekday_letter(weekday), ' ']
}

/// The number that a string of decimal digits stands for.
pub open spec fn decimal_value(text: Seq<char>) -> nat
    decreases text.len(),
{
    if text.len() == 0 {
        0
    } else {
        (10 * decimal_value(text.drop_last()) + (text.last() as int - '0' as int)) as nat
    }
}

fn digit(d: u32) -> (ch: char)
    requires
        d <= 9,
    ensures
        ch == digit_char(d as int),
{
    if d == 0 {
        '0'
    } else if d == 1 {
        '1'
    } else if d == 2 {
        '2'
    } else if d == 3 {
        '3'
    } else if d == 4 {
        '4'
    } else if d == 5 {
        '5'
    } else if d == 6 {
        '6'
    } else if d == 7 {
        '7'
    } else if d == 8 {
        '8'
    } else {
        '9'
    }
}

/// Appends the plain decimal representation of `n` to `text`.
pub fn push_decimal(text: &mut String, n: u32)
    ensures
        final(text)@ == old(text)@ + decimal(n as nat),
    decreases n,
{
    if n >= 10 {
        push_decimal(text, n / 10);
    }
    text.push(digit(n % 10));
    assert(final(text)@ =~= old(text)@ + decimal(n as nat));
}

/// The label of day number `n`.
pub fn day_label(n: u32) -> (label: String)
    ensures
        label@ == day_label_spec(n as nat),
{
    let mut label = String::new();
    if n <= 9 {
        label.push('0');
    }
    push_decimal(&mut label, n);
    assert(label@ =~= day_label_spec(n as nat));
    label
}

/// The label of a cell that shows nothing.
pub fn blank_label() -> (label: String)
    ensures
        label@ == blank_label_spec(),
{
    let mut label = String::new();
    label.push(' ');
    label.push(' ');
    assert(label@ =~= blank_label_spec());
    label
}

/// The label of the column of the weekday with index `weekday` (0 is
/// Sunday, 6 is Saturday, 7 is Sunday again).
pub fn header_label(weekday: u32) -> (label: String)
    ensures
        label@ == header_label_spec(weekday as int),
{
    let index: u32 = weekday % 7;
    let letter = if index == 0 || index == 6 {
        'S'
    } else if index == 1 {
        'M'
    } else if index == 3 {
        'W'
    } else if index == 5 {
        'F'
    } else {
        'T'
    };
    let mut label = String::new();
    label.push(letter);
    label.push(' ');
    assert(label@ =~= header_label_spec(weekday as int));
    label
}

/// A day label is two characters long for every day number under 100.
pub proof fn lemma_day_label_len(n: nat)
    requires
        n <= 99,
    ensures
        day_label_spec(n).len() == 2,
{
    if n >= 10 {
        assert(decimal(n) == decimal(n / 10).push(digit_char((n % 10) as int)));
        assert(decimal(n / 10) == seq![digit_char((n / 10) as int)]);
    }
}

/// A day label is never blank.
pub proof fn lemma_day_label_not_blank(n: nat)
    ensures
        day_label_spec(n) != blank_label_spec(),
{
    let label = day_label_spec(n);
    if n <= 9 {
        assert(label[0] == '0');
    } else {
        assert(label.last() == digit_char((n % 10) as int));
    }
    assert(blank_label_spec()[0] == ' ');
    assert(blank_label_spec().last() == ' ');
}

/// The plain decimal representation of a number stands for that number.
pub proof fn lemma_decimal_value(n: nat)
    ensures
        decimal_value(decimal(n)) == n,
    decreases n,
{
    if n < 10 {
        let text = decimal(n);
        assert(text.drop_last().len() == 0);
        assert(decimal_value(text.drop_last()) == 0);
    } else {
        lemma_decimal_value(n / 10);
        let text = decimal(n);
        assert(text.drop_last() =~= decimal(n / 10));
    }
}

/// A day label stands for its day number, so distinct days have distinct
/// labels.
pub proof fn lemma_day_label_value(n: nat)
    ensures
        decimal_value(day_label_spec(n)) == n,
{
    lemma_decimal_value(n);
    if n <= 9 {
        let text = day_label_spec(n);
        assert(text.drop_last() =~= seq!['0']);
        assert(seq!['0'].drop_last().len() == 0);
        assert(decimal_value(seq!['0'].drop_last()) == 0);
        assert(decimal_value(seq!['0']) == 0);
    }
}

} // verus!
