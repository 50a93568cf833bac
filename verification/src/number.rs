//! Decimal numbers in text.
use vstd::prelude::*;

verus! {

/// Whether a character is a decimal digit.
pub open spec fn is_digit(c: char) -> bool {
    '0' <= c <= '9'
}

/// The value of a sequence of decimal digits.
pub open spec fn decimal_value(digits: Seq<char>) -> int
    decreases digits.len(),
{
    if digits.len() == 0 {
        0
    } else {
        10 * decimal_value(digits.drop_last()) + (digits.last() as int - '0' as int)
    }
}

/// Whether a text is made of decimal digits, at least one.
pub open spec fn all_digits(text: Seq<char>) -> bool {
    text.len() > 0 && forall|i: int| 0 <= i < text.len() ==> is_digit(#[trigger] text[i])
}

/// A text without the plus sign that it may start with.
pub open spec fn without_plus(text: Seq<char>) -> Seq<char> {
    if text.len() > 0 && text[0] == '+' {
        text.skip(1)
    } else {
        text
    }
}

/// The number that a text stands for, if it is an optional plus sign followed by
/// decimal digits, at least one, whose value is at most `max`.
pub open spec fn parsed_number(text: Seq<char>, max: int) -> Option<int> {
    let digits = without_plus(text);
    if all_digits(digits) && decimal_value(digits) <= max {
        Some(decimal_value(digits))
    } else {
        None
    }
}

/// `str::parse::<u64>`, with its error dropped: an optional plus sign followed by
/// only digits is a number; anything else, and a number that is too large, is not.
#[verifier::external_body]
pub(crate) fn parse_u64(text: &str) -> (number: Option<u64>)
    ensures
        number is Some <==> parsed_number(text@, u64::MAX as int) is Some,
        number matches Some(value) ==> parsed_number(text@, u64::MAX as int) == Some(value as int),
{
    text.parse::<u64>().ok()
}

/// Whether a text stands for a number from `min` on that fits a `usize`.
pub open spec fn number_at_least(text: Seq<char>, min: usize) -> bool {
    parsed_number(text, usize::MAX as int) matches Some(number) && number >= min
}

/// The complaint that `is_within_range` has about a text which is no number from
/// `min` on.
pub uninterp spec fn range_complaint(text: Seq<char>, min: usize) -> Seq<char>;

/// `is_within_range` of `solana_clap_utils`, with the range of all `usize` from
/// `min` on: a text passes if it stands for a number in the range. Otherwise the
/// complaint is a function of the text and the bound; its wording is left unsaid.
#[verifier::external_body]
pub(crate) fn within_range(text: String, min: usize) -> (checked: Result<(), String>)
    ensures
        checked is Ok <==> number_at_least(text@, min),
        checked matches Err(complaint) ==> complaint@ == range_complaint(text@, min),
{
    solana_clap_utils::input_validators::is_within_range(text, min..)
}

/// The number that a text stands for, if it fits a `usize`.
pub fn parse_usize(text: &str) -> (number: Option<usize>)
    ensures
        number is Some <==> parsed_number(text@, usize::MAX as int) is Some,
        number matches Some(value) ==> parsed_number(text@, usize::MAX as int) == Some(
            value as int,
        ),
{
    match parse_u64(text) {
        Some(value) => {
            if value <= usize::MAX as u64 {
                Some(value as usize)
            } else {
                None
            }
        },
        None => None,
    }
}

/// A digit behind a number makes it ten times as much and the digit, as long as that
/// is not too large.
pub proof fn law_a_digit_more_is_ten_times_as_much(text: Seq<char>, digit: char, max: int)
    requires
        parsed_number(text, max) is Some,
        '0' <= digit <= '9',
    ensures
        ({
            let value = 10 * parsed_number(text, max)->0 + (digit as int - '0' as int);
            &&& value <= max ==> parsed_number(text.push(digit), max) == Some(value)
            &&& value > max ==> parsed_number(text.push(digit), max) is None
        }),
{
    let digits = without_plus(text);
    let more = without_plus(text.push(digit));
    assert(more =~= digits.push(digit));
    assert(more.drop_last() =~= digits);
    assert forall|i: int| 0 <= i < more.len() implies is_digit(#[trigger] more[i]) by {
        if i < digits.len() {
            assert(is_digit(digits[i]));
        }
    }
}

/// A single digit stands for itself, and a plus sign in front of a text that has none
/// changes nothing.
pub proof fn law_digits_stand_for_themselves(digit: char, text: Seq<char>, max: int)
    requires
        '0' <= digit <= '9',
        max >= 9,
        text.len() > 0,
        text[0] != '+',
    ensures
        parsed_number(seq![digit], max) == Some(digit as int - '0' as int),
        parsed_number(seq!['+'] + text, max) == parsed_number(text, max),
{
    let one = seq![digit];
    assert(without_plus(one) =~= one);
    assert(one.drop_last() =~= Seq::<char>::empty());
    reveal_with_fuel(decimal_value, 2);
    assert(all_digits(one));
    assert((seq!['+'] + text).skip(1) =~= text);
}

/// Nothing else is a number: not the empty text, not a sign alone, and no text with
/// another character than a digit, but for a plus sign in front.
pub proof fn law_only_digits_are_numbers(text: Seq<char>, i: int, max: int)
    requires
        text.len() == 0 || text =~= seq!['+'] || (0 <= i < text.len() && !('0' <= text[i] <= '9')
            && (i > 0 || text[0] != '+')),
    ensures
        parsed_number(text, max) is None,
{
    let digits = without_plus(text);
    if text.len() > 0 && !(text =~= seq!['+']) {
        if text[0] == '+' {
            assert(digits[i - 1] == text[i]);
            assert(!is_digit(digits[i - 1]));
        } else {
            assert(!is_digit(digits[i]));
        }
    }
}

/// A larger bound refuses no number and changes none; no number is beyond its bound.
pub proof fn law_bounds_only_cut_off(text: Seq<char>, low: int, high: int)
    requires
        low <= high,
    ensures
        parsed_number(text, low) is Some ==> parsed_number(text, high) == parsed_number(text, low),
        parsed_number(text, low) is Some ==> parsed_number(text, low)->0 <= low,
        parsed_number(text, low) is None && parsed_number(text, high) is Some ==> parsed_number(
            text,
            high,
        )->0 > low,
{
}

/// No number is negative.
pub proof fn lemma_numbers_are_not_negative(text: Seq<char>, max: int)
    ensures
        parsed_number(text, max) is Some ==> parsed_number(text, max)->0 >= 0,
{
    if all_digits(without_plus(text)) {
        lemma_digits_are_not_negative(without_plus(text));
    }
}

proof fn lemma_digits_are_not_negative(digits: Seq<char>)
    requires
        forall|i: int| 0 <= i < digits.len() ==> is_digit(#[trigger] digits[i]),
    ensures
        decimal_value(digits) >= 0,
    decreases digits.len(),
{
    if digits.len() != 0 {
        assert forall|i: int| 0 <= i < digits.drop_last().len() implies is_digit(
            #[trigger] digits.drop_last()[i],
        ) by {
            assert(digits.drop_last()[i] == digits[i]);
        }
        lemma_digits_are_not_negative(digits.drop_last());
        assert(is_digit(digits[digits.len() - 1]));
    }
}

/// A number reaches every bound up to itself and none beyond, and what is no number
/// reaches none.
pub proof fn law_a_number_reaches_the_bounds_up_to_itself(text: Seq<char>, min: usize)
    ensures
        parsed_number(text, usize::MAX as int) is None ==> !number_at_least(text, min),
        parsed_number(text, usize::MAX as int) is Some ==> (number_at_least(text, min) <==> min
            <= parsed_number(text, usize::MAX as int)->0),
{
}

} // verus!
