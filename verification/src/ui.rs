//! What the heads-up display shows: hearts for the health, and the counters
//! digit by digit.

use vstd::arithmetic::div_mod::lemma_div_denominator;
use vstd::arithmetic::power::{lemma_pow0, lemma_pow_positive, pow};
use vstd::prelude::*;

verus! {

/// The number of digits that a counter shows.
pub const MAX_UI_DIGITS: usize = 4;

/// The digit of `value` at `place`, the ones being at place zero.
pub open spec fn decimal_digit(value: nat, place: nat) -> nat {
    ((value as int / pow(10, place)) % 10) as nat
}

/// The digit that the element `element_index` of a counter shows: the
/// elements one to four show the ones, the tens, the hundreds and the
/// thousands of `value`. Any other element is none of the counter's.
pub open spec fn shown_digit(value: nat, element_index: nat) -> Option<nat> {
    if 1 <= element_index <= MAX_UI_DIGITS {
        Some(decimal_digit(value, (element_index - 1) as nat))
    } else {
        None
    }
}

/// The digit that the element `element_index` of a counter shows for
/// `value`, if the element is one of the counter's.
pub fn counter_digit(value: u32, element_index: usize) -> (digit: Option<u32>)
    ensures
        digit matches Some(d) ==> shown_digit(value as nat, element_index as nat) == Some(
            d as nat,
        ) && d <= 9,
        digit is None ==> shown_digit(value as nat, element_index as nat) is None,
{
    if element_index < 1 || element_index > MAX_UI_DIGITS {
        return None;
    }
    let mut rest: u32 = value;
    let mut place: usize = 0;
    proof {
        lemma_pow0(10);
    }
    while place < element_index - 1
        invariant
            1 <= element_index <= MAX_UI_DIGITS,
            place <= element_index - 1,
            rest == value as int / pow(10, place as nat),
        decreases element_index - 1 - place,
    {
        proof {
            lemma_pow_positive(10, place as nat);
            lemma_div_denominator(value as int, pow(10, place as nat), 10);
            assert(pow(10, (place + 1) as nat) == pow(10, place as nat) * 10) by {
                reveal(pow);
            }
        }
        rest = rest / 10;
        place = place + 1;
    }
    Some(rest % 10)
}

/// The number of the image for a digit: the digit itself, and zero where
/// there is no digit or where the number is no digit.
pub fn number_to_image(num: Option<u32>) -> (image: u32)
    ensures
        image == match num {
            Some(digit) => if digit <= 9 {
                digit
            } else {
                0
            },
            None => 0,
        },
{
    match num {
        Some(digit) => if digit <= 9 {
            digit
        } else {
            0
        },
        None => 0,
    }
}

/// Whether the heart `element_index`, counted from one, is shown empty: it
/// is where the player has less health than that.
pub fn heart_is_empty(element_index: usize, player_health: u32) -> (empty: bool)
    ensures
        empty == (element_index > player_health),
{
    element_index as u64 > player_health as u64
}

/// The element of a counter that stands at `position`, counted from one and
/// from the left: the thousands stand first and the ones last.
pub fn element_at(position: usize) -> (element_index: usize)
    requires
        1 <= position <= MAX_UI_DIGITS,
    ensures
        element_index == MAX_UI_DIGITS + 1 - position,
        1 <= element_index <= MAX_UI_DIGITS,
{
    MAX_UI_DIGITS + 1 - position
}

/// A counter of four digits shows a value below ten thousand in full: the
/// digits it shows, each times its place, add up to the value.
pub proof fn lemma_counter_shows_value(value: nat)
    requires
        value < 10000,
    ensures
        decimal_digit(value, 0) + 10 * decimal_digit(value, 1) + 100 * decimal_digit(value, 2)
            + 1000 * decimal_digit(value, 3) == value,
{
    reveal_with_fuel(pow, 5);
    let v = value as int;
    assert(pow(10, 0) == 1);
    assert(pow(10, 1) == 10);
    assert(pow(10, 2) == 100);
    assert(pow(10, 3) == 1000);
    lemma_div_denominator(v, 10, 10);
    lemma_div_denominator(v, 100, 10);
    let tens = v / 10;
    let hundreds = tens / 10;
    let thousands = hundreds / 10;
    assert(v / 100 == hundreds);
    assert(v / 1000 == thousands);
    assert(v == 10 * tens + v % 10);
    assert(tens == 10 * hundreds + tens % 10);
    assert(hundreds == 10 * thousands + hundreds % 10);
    assert(thousands % 10 == thousands);
}

/// Each digit lies between zero and nine.
pub proof fn lemma_digit_in_range(value: nat, place: nat)
    ensures
        decimal_digit(value, place) <= 9,
{
}

} // verus!
