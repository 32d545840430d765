//! Numbers in a text, such as the window handles in a window manager's file.

use vstd::prelude::*;

verus! {

/// Whether a character is one of the ten decimal digits.
pub open spec fn is_decimal_digit(c: char) -> bool {
    '0' <= c <= '9'
}

/// Whether a character can be part of a word: a letter or a digit, or any character beyond
/// ASCII.
pub open spec fn is_word_character(c: char) -> bool {
    is_decimal_digit(c) || 'a' <= c <= 'z' || 'A' <= c <= 'Z' || c as int >= 0x80
}

/// The number that a decimal digit stands for.
pub open spec fn digit_value(c: char) -> nat {
    (c as int - '0' as int) as nat
}

/// The number that decimal digits stand for; zeros in front do not matter.
pub open spec fn digits_value(digits: Seq<char>) -> nat
    decreases digits.len(),
{
    if digits.len() == 0 {
        0
    } else {
        digits_value(digits.drop_last()) * 10 + digit_value(digits.last())
    }
}

/// Whether the characters from `start` up to `end` are digits, with no digit on either side.
pub open spec fn is_digit_run(text: Seq<char>, start: int, end: int) -> bool {
    &&& 0 <= start < end <= text.len()
    &&& forall|i: int| start <= i < end ==> is_decimal_digit(#[trigger] text[i])
    &&& start > 0 ==> !is_decimal_digit(text[start - 1])
    &&& end < text.len() ==> !is_decimal_digit(text[end])
}

/// Whether a minus stands right before an index.
pub open spec fn has_minus(text: Seq<char>, start: int) -> bool {
    start > 0 && text[start - 1] == '-'
}

/// Whether the minus right before an index can only be a sign: it is the first character, or
/// does not follow on a word, as a hyphen would.
pub open spec fn has_sign(text: Seq<char>, start: int) -> bool {
    has_minus(text, start) && (start == 1 || !is_word_character(text[start - 2]))
}

/// Whether a run of digits can be read as a number. After a minus that follows on a word, it
/// can be read with a sign or without.
pub open spec fn reads_as(text: Seq<char>, start: int, end: int, number: int) -> bool {
    let value = digits_value(text.subrange(start, end)) as int;
    &&& is_digit_run(text, start, end)
    &&& (number == value && !has_sign(text, start)) || (number == -value && has_minus(text, start))
}

/// Whether a number is one of the numbers in a text.
pub open spec fn is_listed(number: int, text: Seq<char>) -> bool {
    exists|start: int, end: int| #[trigger] reads_as(text, start, end, number)
}

/// The characters of a text, one by one.
fn characters(text: &str) -> (characters: Vec<char>)
    ensures
        characters@ == text@,
{
    broadcast use vstd::string::axiom_spec_iter;

    let mut characters: Vec<char> = Vec::new();
    for c in it: text.chars()
        invariant
            it.seq() == text@,
            characters@ == text@.take(it.index() as int),
    {
        characters.push(c);
        assert(characters@ =~= text@.take(it.index() + 1));
    }
    assert(characters@ =~= text@);
    characters
}

fn is_digit(c: char) -> (yes: bool)
    ensures
        yes == is_decimal_digit(c),
{
    '0' <= c && c <= '9'
}

fn is_in_word(c: char) -> (yes: bool)
    ensures
        yes == is_word_character(c),
{
    is_digit(c) || ('a' <= c && c <= 'z') || ('A' <= c && c <= 'Z') || c as u32 >= 0x80
}

/// A bound above every magnitude of a handle.
const VALUE_CAP: u128 = 0x1_0000_0000_0000_0000;

/// The smaller of a value and the cap.
spec fn capped(value: nat) -> nat {
    if value < VALUE_CAP {
        value
    } else {
        VALUE_CAP as nat
    }
}

/// Tells whether the run of digits with this value, which starts at `start`, can be read as a
/// number.
fn value_reads_as(text: &Vec<char>, start: usize, value: u128, number: isize) -> (reads: bool)
    requires
        start < text@.len(),
        value <= VALUE_CAP,
    ensures
        reads == ((number == value && !has_sign(text@, start as int)) || (number == -(value as int)
            && has_minus(text@, start as int))),
{
    let minus = start > 0 && text[start - 1] == '-';
    let sign = minus && (start == 1 || !is_in_word(text[start - 2]));
    let same = number as i128 == value as i128;
    let opposite = -(number as i128) == value as i128;
    (same && !sign) || (opposite && minus)
}

/// The end of the run of digits that starts at `start`, and its value up to the cap.
fn read_run(text: &Vec<char>, start: usize) -> (run: (usize, u128))
    requires
        start < text@.len(),
        is_decimal_digit(text@[start as int]),
        start > 0 ==> !is_decimal_digit(text@[start - 1]),
    ensures
        is_digit_run(text@, start as int, run.0 as int),
        run.1 == capped(digits_value(text@.subrange(start as int, run.0 as int))),
{
    let mut end: usize = start;
    let mut value: u128 = 0;
    assert(text@.subrange(start as int, end as int) =~= seq![]);
    while end < text.len() && is_digit(text[end])
        invariant
            start <= end <= text@.len(),
            forall|i: int| start <= i < end ==> is_decimal_digit(#[trigger] text@[i]),
            value == capped(digits_value(text@.subrange(start as int, end as int))),
        decreases text@.len() - end,
    {
        let c: char = text[end];
        let digit: u128 = (c as u32 - 48) as u128;
        let longer: u128 = value * 10 + digit;
        assert(text@.subrange(start as int, end + 1).drop_last() =~= text@.subrange(
            start as int,
            end as int,
        ));
        value = if longer < VALUE_CAP {
            longer
        } else {
            VALUE_CAP
        };
        end = end + 1;
    }
    assert(end > start);
    (end, value)
}

/// Tells whether a number is one of the numbers in a text.
pub fn lists_number(text: &str, number: isize) -> (listed: bool)
    ensures
        listed == is_listed(number as int, text@),
{
    let list = characters(text);
    let mut at: usize = 0;
    while at < list.len()
        invariant
            list@ == text@,
            at <= list@.len(),
            0 < at < list@.len() ==> !(is_decimal_digit(list@[at - 1]) && is_decimal_digit(
                list@[at as int],
            )),
            forall|start: int, end: int|
                start < at ==> !(#[trigger] reads_as(list@, start, end, number as int)),
        decreases list@.len() - at,
    {
        if is_digit(list[at]) {
            let (end, value) = read_run(&list, at);
            if value_reads_as(&list, at, value, number) {
                assert(reads_as(list@, at as int, end as int, number as int));
                return true;
            }
            assert forall|other_start: int, other_end: int| other_start < end implies !(
            #[trigger] reads_as(list@, other_start, other_end, number as int)) by {
                if reads_as(list@, other_start, other_end, number as int) && other_start >= at {
                    if other_start > at {
                        assert(is_decimal_digit(list@[other_start - 1]));
                    } else {
                        a_run_has_one_end(list@, at as int, end as int, other_end);
                    }
                }
            }
            at = end;
        } else {
            assert forall|start: int, end: int| start < at + 1 implies !(#[trigger] reads_as(
                list@,
                start,
                end,
                number as int,
            )) by {
                if start == at && is_digit_run(list@, start, end) {
                    assert(is_decimal_digit(list@[start]));
                }
            }
            at = at + 1;
        }
    }
    assert forall|start: int, end: int| !(#[trigger] reads_as(text@, start, end, number as int)) by {
        if reads_as(text@, start, end, number as int) {
            assert(start < at);
        }
    }
    false
}

proof fn a_run_has_one_end(text: Seq<char>, start: int, end: int, other_end: int)
    requires
        is_digit_run(text, start, end),
        is_digit_run(text, start, other_end),
    ensures
        end == other_end,
{
    if end < other_end {
        assert(is_decimal_digit(text[end]));
    }
    if other_end < end {
        assert(is_decimal_digit(text[other_end]));
    }
}

/// A natural number in decimal, without zeros in front.
pub open spec fn decimal_digits(n: nat) -> Seq<char>
    decreases n,
{
    if n < 10 {
        seq![(48 + n) as char]
    } else {
        decimal_digits(n / 10).push((48 + n % 10) as char)
    }
}

/// An integer in decimal, a minus sign before a negative one.
pub open spec fn decimal(n: int) -> Seq<char> {
    if n < 0 {
        seq!['-'] + decimal_digits((-n) as nat)
    } else {
        decimal_digits(n as nat)
    }
}

proof fn decimal_digits_have_their_value(n: nat)
    ensures
        decimal_digits(n).len() > 0,
        forall|i: int|
            0 <= i < decimal_digits(n).len() ==> is_decimal_digit(#[trigger] decimal_digits(n)[i]),
        digits_value(decimal_digits(n)) == n,
    decreases n,
{
    let digits = decimal_digits(n);
    if n < 10 {
        assert(digits.drop_last() =~= seq![]);
        assert(digits_value(digits.drop_last()) == 0);
    } else {
        decimal_digits_have_their_value(n / 10);
        assert(digits.drop_last() =~= decimal_digits(n / 10));
    }
}

/// A character parts a text if no run of digits, and no minus with what stands on its sides,
/// goes across it: the numbers in the whole text are those before it and those behind it.
proof fn a_boundary_splits_a_list(
    before: Seq<char>,
    boundary: char,
    behind: Seq<char>,
    number: int,
)
    requires
        !is_decimal_digit(boundary),
        boundary == '-' ==> behind.len() == 0 || !is_decimal_digit(behind[0]),
        is_word_character(boundary) ==> behind.len() == 0 || behind[0] != '-',
    ensures
        is_listed(number, before.push(boundary) + behind) <==> is_listed(number, before)
            || is_listed(number, behind),
{
    let text = before.push(boundary) + behind;
    let offset: int = before.len() as int + 1;
    assert(forall|i: int| 0 <= i < before.len() ==> text[i] == before[i]);
    assert(text[offset - 1] == boundary);
    assert(forall|i: int| 0 <= i < behind.len() ==> text[i + offset] == #[trigger] behind[i]);
    assert forall|start: int, end: int| #[trigger] reads_as(before, start, end, number) implies
        reads_as(text, start, end, number) by {
        assert(text.subrange(start, end) =~= before.subrange(start, end));
        assert forall|i: int| start <= i < end implies is_decimal_digit(#[trigger] text[i]) by {
            assert(is_decimal_digit(before[i]));
        }
    }
    assert forall|start: int, end: int| #[trigger] reads_as(behind, start, end, number) implies
        reads_as(text, start + offset, end + offset, number) by {
        assert(text.subrange(start + offset, end + offset) =~= behind.subrange(start, end));
        assert forall|i: int| start + offset <= i < end + offset implies is_decimal_digit(
            #[trigger] text[i],
        ) by {
            assert(is_decimal_digit(behind[i - offset]));
        }
    }
    assert forall|start: int, end: int| #[trigger] reads_as(text, start, end, number) implies
        is_listed(number, before) || is_listed(number, behind) by {
        assert(!(start <= offset - 1 < end)) by {
            if start <= offset - 1 < end {
                assert(is_decimal_digit(text[offset - 1]));
            }
        }
        if end <= before.len() {
            assert(text.subrange(start, end) =~= before.subrange(start, end));
            assert forall|i: int| start <= i < end implies is_decimal_digit(
                #[trigger] before[i],
            ) by {
                assert(is_decimal_digit(text[i]));
            }
            assert(reads_as(before, start, end, number));
        } else {
            assert(text.subrange(start, end) =~= behind.subrange(start - offset, end - offset));
            assert forall|i: int| start - offset <= i < end - offset implies is_decimal_digit(
                #[trigger] behind[i],
            ) by {
                assert(is_decimal_digit(text[i + offset]));
            }
            assert(reads_as(behind, start - offset, end - offset, number));
        }
    }
}

/// A character that is in no word and no minus separates: the numbers in the whole text are
/// those before it and those behind it.
pub proof fn a_separator_splits_a_list(
    before: Seq<char>,
    separator: char,
    behind: Seq<char>,
    number: int,
)
    requires
        !('0' <= separator <= '9'),
        !('a' <= separator <= 'z'),
        !('A' <= separator <= 'Z'),
        separator as int <= 0x7f,
        separator != '-',
    ensures
        is_listed(number, before.push(separator) + behind) <==> is_listed(number, before)
            || is_listed(number, behind),
{
    a_boundary_splits_a_list(before, separator, behind, number);
}

/// A letter, or any character beyond ASCII, separates as well, unless a minus follows on it.
pub proof fn a_letter_splits_a_list(
    before: Seq<char>,
    letter: char,
    behind: Seq<char>,
    number: int,
)
    requires
        'a' <= letter <= 'z' || 'A' <= letter <= 'Z' || letter as int >= 0x80,
        behind.len() == 0 || behind[0] != '-',
    ensures
        is_listed(number, before.push(letter) + behind) <==> is_listed(number, before)
            || is_listed(number, behind),
{
    a_boundary_splits_a_list(before, letter, behind, number);
}

/// A minus that no digit follows on separates.
pub proof fn a_loose_minus_splits_a_list(before: Seq<char>, behind: Seq<char>, number: int)
    requires
        behind.len() == 0 || !('0' <= behind[0] <= '9'),
    ensures
        is_listed(number, before.push('-') + behind) <==> is_listed(number, before) || is_listed(
            number,
            behind,
        ),
{
    a_boundary_splits_a_list(before, '-', behind, number);
}

/// Zeros, to stand in front of a number.
pub open spec fn zeros(count: nat) -> Seq<char> {
    Seq::new(count, |i: int| '0')
}

/// The zeros and the digits behind them are digits, and have the value of those behind.
proof fn zeros_add_no_value(count: nat, digits: Seq<char>)
    requires
        forall|i: int| 0 <= i < digits.len() ==> is_decimal_digit(#[trigger] digits[i]),
    ensures
        forall|i: int|
            0 <= i < count + digits.len() ==> is_decimal_digit(
                #[trigger] (zeros(count) + digits)[i],
            ),
        digits_value(zeros(count) + digits) == digits_value(digits),
    decreases count + digits.len(),
{
    let all = zeros(count) + digits;
    if digits.len() > 0 {
        assert(all.drop_last() =~= zeros(count) + digits.drop_last());
        zeros_add_no_value(count, digits.drop_last());
    } else if count > 0 {
        assert(all.drop_last() =~= zeros((count - 1) as nat) + digits);
        zeros_add_no_value((count - 1) as nat, digits);
    }
}

/// A run of digits that is the whole text, or all of it but a minus in front, lists one number.
proof fn one_run_lists_one_number(digits: Seq<char>, negative: bool, number: int)
    requires
        digits.len() > 0,
        forall|i: int| 0 <= i < digits.len() ==> is_decimal_digit(#[trigger] digits[i]),
    ensures
        negative ==> (is_listed(number, seq!['-'] + digits) <==> number == -(digits_value(
            digits,
        ) as int)),
        !negative ==> (is_listed(number, digits) <==> number == digits_value(digits)),
{
    let text = if negative {
        seq!['-'] + digits
    } else {
        digits
    };
    let first: int = if negative {
        1
    } else {
        0
    };
    let whole = text.len() as int;
    assert forall|i: int| first <= i < text.len() implies is_decimal_digit(#[trigger] text[i]) by {
        assert(text[i] == digits[i - first]);
    }
    assert(text.subrange(first, whole) =~= digits);
    assert(is_digit_run(text, first, whole));
    assert forall|start: int, end: int| #[trigger] reads_as(text, start, end, number) implies start
        == first && end == whole by {
        assert(is_decimal_digit(text[start]));
        assert(start == first);
        a_run_has_one_end(text, start, end, whole);
    }
    let value = digits_value(digits) as int;
    if negative && number == -value {
        assert(reads_as(text, first, whole, number));
    }
    if !negative && number == value {
        assert(reads_as(text, first, whole, number));
    }
}

/// A number written in decimal lists itself and no other number.
pub proof fn a_number_lists_itself_alone(written: int, number: int)
    ensures
        is_listed(number, decimal(written)) <==> number == written,
{
    if written < 0 {
        decimal_digits_have_their_value((-written) as nat);
        one_run_lists_one_number(decimal_digits((-written) as nat), true, number);
    } else {
        decimal_digits_have_their_value(written as nat);
        one_run_lists_one_number(decimal_digits(written as nat), false, number);
    }
}

/// Zeros in front of a number change nothing, with a minus sign before them or without.
pub proof fn zeros_in_front_do_not_matter(count: nat, written: nat, number: int)
    ensures
        is_listed(number, zeros(count) + decimal_digits(written)) <==> number == written,
        is_listed(number, seq!['-'] + (zeros(count) + decimal_digits(written))) <==> number == -(
        written as int),
{
    decimal_digits_have_their_value(written);
    zeros_add_no_value(count, decimal_digits(written));
    let digits = zeros(count) + decimal_digits(written);
    one_run_lists_one_number(digits, false, number);
    one_run_lists_one_number(digits, true, number);
}

/// A minus between a word and a number may be a hyphen or a sign, so the number counts with a
/// sign and without. What stands before the minus counts as it would alone.
pub proof fn a_hyphen_leaves_both_readings(
    before: Seq<char>,
    letter: char,
    written: nat,
    number: int,
)
    requires
        '0' <= letter <= '9' || 'a' <= letter <= 'z' || 'A' <= letter <= 'Z' || letter as int
            >= 0x80,
    ensures
        is_listed(number, before.push(letter).push('-') + decimal_digits(written)) <==> is_listed(
            number,
            before.push(letter),
        ) || number == written || number == -(written as int),
{
    let word = before.push(letter);
    let digits = decimal_digits(written);
    let text = word.push('-') + digits;
    let offset: int = word.len() as int + 1;
    let whole = text.len() as int;
    decimal_digits_have_their_value(written);
    assert(forall|i: int| 0 <= i < word.len() ==> text[i] == word[i]);
    assert(text[offset - 1] == '-' && text[offset - 2] == letter);
    assert forall|i: int| offset <= i < whole implies is_decimal_digit(#[trigger] text[i]) by {
        assert(text[i] == digits[i - offset]);
    }
    assert(text.subrange(offset, whole) =~= digits);
    assert(is_digit_run(text, offset, whole));
    if number == written || number == -(written as int) {
        assert(reads_as(text, offset, whole, number));
    }
    assert forall|start: int, end: int| #[trigger] reads_as(word, start, end, number) implies
        reads_as(text, start, end, number) by {
        assert(text.subrange(start, end) =~= word.subrange(start, end));
        assert forall|i: int| start <= i < end implies is_decimal_digit(#[trigger] text[i]) by {
            assert(is_decimal_digit(word[i]));
        }
    }
    assert forall|start: int, end: int| #[trigger] reads_as(text, start, end, number) implies
        is_listed(number, word) || number == written || number == -(written as int) by {
        if start >= offset {
            if start > offset {
                assert(is_decimal_digit(text[start - 1]));
            }
            a_run_has_one_end(text, offset, end, whole);
        } else {
            assert(end <= word.len()) by {
                if end > word.len() {
                    assert(is_decimal_digit(text[offset - 1]));
                }
            }
            assert(text.subrange(start, end) =~= word.subrange(start, end));
            assert forall|i: int| start <= i < end implies is_decimal_digit(
                #[trigger] word[i],
            ) by {
                assert(is_decimal_digit(text[i]));
            }
            assert(reads_as(word, start, end, number));
        }
    }
}

/// Numbers written in decimal, a separator between each and the next.
pub open spec fn written_list(numbers: Seq<int>, separator: char) -> Seq<char>
    decreases numbers.len(),
{
    if numbers.len() == 0 {
        seq![]
    } else if numbers.len() == 1 {
        decimal(numbers[0])
    } else {
        written_list(numbers.drop_last(), separator).push(separator) + decimal(numbers.last())
    }
}

/// A list of numbers lists its numbers and no others, however large they are and however many,
/// within square brackets or without.
pub proof fn a_written_list_lists_its_numbers(numbers: Seq<int>, separator: char, number: int)
    requires
        !('0' <= separator <= '9'),
        !('a' <= separator <= 'z'),
        !('A' <= separator <= 'Z'),
        separator as int <= 0x7f,
        separator != '-',
    ensures
        is_listed(number, written_list(numbers, separator)) <==> numbers.contains(number),
        is_listed(number, seq!['['] + written_list(numbers, separator) + seq![']'])
            <==> numbers.contains(number),
    decreases numbers.len(),
{
    let list = written_list(numbers, separator);
    let nothing: Seq<char> = seq![];
    assert(!is_listed(number, nothing));
    if numbers.len() == 1 {
        a_number_lists_itself_alone(numbers[0], number);
        assert(numbers.contains(number) <==> number == numbers[0]);
    } else if numbers.len() > 1 {
        let rest = numbers.drop_last();
        a_written_list_lists_its_numbers(rest, separator, number);
        a_number_lists_itself_alone(numbers.last(), number);
        a_separator_splits_a_list(
            written_list(rest, separator),
            separator,
            decimal(numbers.last()),
            number,
        );
        if rest.contains(number) {
            let i = choose|i: int| 0 <= i < rest.len() && rest[i] == number;
            assert(numbers[i] == number);
        }
        if numbers.contains(number) && number != numbers.last() {
            let i = choose|i: int| 0 <= i < numbers.len() && numbers[i] == number;
            assert(rest[i] == number);
        }
        assert(number == numbers.last() ==> numbers[numbers.len() - 1] == number);
    }
    let opened = seq!['['] + list;
    assert(opened =~= nothing.push('[') + list);
    assert(opened + seq![']'] =~= opened.push(']') + nothing);
    a_separator_splits_a_list(nothing, '[', list, number);
    a_separator_splits_a_list(opened, ']', nothing, number);
}

} // verus!
