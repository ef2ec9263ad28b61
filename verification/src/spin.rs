//! The spin game: three digits, of which only three fives win.

use crate::decimal::{decimal, decimal_string, decimal_value, digit_char};
use crate::models::{SpinResponse, SpinResponseView};
use crate::random::draw_below;
use rand::rngs::SmallRng;
use vstd::prelude::*;

verus! {

/// The digit that wins when all three reels show it.
pub const LUCKY_DIGIT: u8 = 5;

/// The digit that takes the place of the first one where three lucky digits
/// were drawn without a win.
pub open spec fn unlucky_digit() -> u8 {
    if LUCKY_DIGIT == 0 {
        1
    } else {
        0
    }
}

/// The outcome of one spin.
#[derive(Debug, Clone, Copy, PartialEq, Eq, Structural)]
pub struct SpinOutcome {
    pub first: u8,
    pub second: u8,
    pub third: u8,
    pub is_win: bool,
}

/// The outcome that a draw gives. A win shows the lucky digit three times. A
/// draw without a win shows the three digits drawn, except that three lucky
/// digits have the first one replaced: only a win shows them.
pub open spec fn spin_outcome(win: bool, first: u8, second: u8, third: u8) -> SpinOutcome {
    if win {
        SpinOutcome { first: LUCKY_DIGIT, second: LUCKY_DIGIT, third: LUCKY_DIGIT, is_win: true }
    } else if first == LUCKY_DIGIT && second == LUCKY_DIGIT && third == LUCKY_DIGIT {
        SpinOutcome { first: unlucky_digit(), second, third, is_win: false }
    } else {
        SpinOutcome { first, second, third, is_win: false }
    }
}

impl SpinOutcome {
    /// All three digits are the lucky one.
    pub open spec fn is_lucky_triple(self) -> bool {
        self.first == LUCKY_DIGIT && self.second == LUCKY_DIGIT && self.third == LUCKY_DIGIT
    }

    /// Each digit is a decimal digit, and the outcome is a win exactly where
    /// it shows the lucky digit three times.
    pub open spec fn valid(self) -> bool {
        &&& self.first <= 9
        &&& self.second <= 9
        &&& self.third <= 9
        &&& self.is_win <==> self.is_lucky_triple()
    }

    /// The number under which the outcome is recorded: the one that the three
    /// digits spell.
    pub open spec fn spec_number(self) -> int {
        100 * self.first + 10 * self.second + self.third
    }

    /// The outcome as the caller receives it: each digit in decimal notation.
    pub open spec fn response_view(self) -> SpinResponseView {
        SpinResponseView {
            numbers: seq![
                decimal(self.first as int),
                decimal(self.second as int),
                decimal(self.third as int),
            ],
            is_win: self.is_win,
        }
    }

    /// A valid outcome reaches the caller as three strings of one digit each.
    pub proof fn lemma_response_shows_digits(self)
        requires
            self.valid(),
        ensures
            self.response_view().numbers == seq![
                seq![digit_char(self.first as int)],
                seq![digit_char(self.second as int)],
                seq![digit_char(self.third as int)],
            ],
    {
    }

    /// The number under which a valid outcome is recorded is the one that its
    /// three digits denote when they are written one after the other.
    pub proof fn lemma_number_spells_digits(self)
        requires
            self.valid(),
        ensures
            self.spec_number() == decimal_value(
                decimal(self.first as int) + decimal(self.second as int) + decimal(
                    self.third as int,
                ),
            ),
            self.is_win ==> self.spec_number() == 555,
    {
        reveal_with_fuel(decimal_value, 4);
    }

    /// The outcome that a draw gives: see [`spin_outcome`].
    pub fn from_draw(win: bool, first: u8, second: u8, third: u8) -> (outcome: SpinOutcome)
        ensures
            outcome == spin_outcome(win, first, second, third),
            first <= 9 && second <= 9 && third <= 9 ==> outcome.valid(),
    {
        if win {
            SpinOutcome {
                first: LUCKY_DIGIT,
                second: LUCKY_DIGIT,
                third: LUCKY_DIGIT,
                is_win: true,
            }
        } else if first == LUCKY_DIGIT && second == LUCKY_DIGIT && third == LUCKY_DIGIT {
            let replaced: u8 = if LUCKY_DIGIT == 0 {
                1
            } else {
                0
            };
            SpinOutcome { first: replaced, second, third, is_win: false }
        } else {
            SpinOutcome { first, second, third, is_win: false }
        }
    }

    /// The number under which the outcome is recorded.
    pub fn number(&self) -> (n: i32)
        ensures
            n == self.spec_number(),
    {
        let hundreds: i32 = 100 * (self.first as i32);
        let tens: i32 = 10 * (self.second as i32);
        hundreds + tens + self.third as i32
    }

    /// The outcome as the caller receives it: each digit as a string.
    pub fn response(&self) -> (response: SpinResponse)
        ensures
            response@ == self.response_view(),
    {
        let mut numbers: Vec<String> = Vec::with_capacity(3);
        numbers.push(decimal_string(self.first as i64));
        numbers.push(decimal_string(self.second as i64));
        numbers.push(decimal_string(self.third as i64));
        let response = SpinResponse { numbers, is_win: self.is_win };
        assert(response@.numbers =~= self.response_view().numbers);
        response
    }
}

/// One spin. A win is decided by the caller's draw against the chance to win
/// and shows three lucky digits; nothing more is drawn for it. Otherwise three
/// digits are drawn, and the outcome never shows three lucky digits.
pub fn generate_spin(rng: &mut SmallRng, win: bool) -> (outcome: SpinOutcome)
    ensures
        outcome.valid(),
        outcome.is_win == win,
        win ==> *final(rng) == *old(rng),
        exists|first: u8, second: u8, third: u8|
            first <= 9 && second <= 9 && third <= 9 && outcome == #[trigger] spin_outcome(
                win,
                first,
                second,
                third,
            ),
{
    if win {
        return SpinOutcome::from_draw(true, LUCKY_DIGIT, LUCKY_DIGIT, LUCKY_DIGIT);
    }
    let mut drawn: Vec<u8> = Vec::with_capacity(3);
    let mut i: usize = 0;
    while i < 3
        invariant
            i <= 3,
            drawn.len() == i,
            forall|k: int| 0 <= k < i ==> drawn[k] <= 9,
        decreases 3 - i,
    {
        // Generate a number between 0-9
        let digit: u32 = draw_below(rng, 10);
        drawn.push(digit as u8);
        i += 1;
    }
    SpinOutcome::from_draw(false, drawn[0], drawn[1], drawn[2])
}

} // verus!
