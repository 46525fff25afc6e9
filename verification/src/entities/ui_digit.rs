use vstd::prelude::*;

use crate::text::{chars_of, parse_u32, same_text, spec_parse_u32};

verus! {

/// What a digit of the ui shows: the player's vials or lives.
#[derive(Clone, Copy, Debug, PartialEq, Eq, Structural)]
pub enum Tracking {
    Vials,
    Lives,
}

/// One decimal digit of a number shown in the ui: which number it tracks, which digit of it
/// (0 for the units, 1 for the tens, ...), and the numeral it shows.
pub struct UiDigit {
    tracking: Option<Tracking>,
    digit: u32,
    cycle: u32,
}

pub struct UiDigitView {
    pub tracking: Option<Tracking>,
    pub digit: u32,
    pub cycle: u32,
}

impl View for UiDigit {
    type V = UiDigitView;

    closed spec fn view(&self) -> UiDigitView {
        UiDigitView { tracking: self.tracking, digit: self.digit, cycle: self.cycle }
    }
}

/// The `digit`-th decimal digit of `value`.
pub open spec fn decimal_digit(value: int, digit: nat) -> int {
    (value / vstd::arithmetic::power::pow(10, digit)) % 10
}

impl Default for UiDigit {
    fn default() -> (r: Self)
        ensures
            r@ == (UiDigitView { tracking: None, digit: 0, cycle: 0 }),
    {
        UiDigit { tracking: None, digit: 0, cycle: 0 }
    }
}

impl UiDigit {
    /// Reads one property of the digit's map metadata: `tracking` ("vials" or "lives") or `digit`
    /// (a u32); others are ignored.
    pub fn set_property(&mut self, name: &str, value: &str)
        requires
            name@ == "tracking"@ ==> (value@ == "vials"@ || value@ == "lives"@),
            name@ == "digit"@ ==> spec_parse_u32(value@) is Some,
        ensures
            final(self)@ == (if name@ == "tracking"@ {
                UiDigitView { tracking: Some(if value@ == "vials"@ { Tracking::Vials } else { Tracking::Lives }), ..old(self)@ }
            } else if name@ == "digit"@ {
                UiDigitView { digit: spec_parse_u32(value@)->0, ..old(self)@ }
            } else {
                old(self)@
            }),
    {
        if same_text(name, "tracking") {
            if same_text(value, "vials") {
                self.tracking = Some(Tracking::Vials);
            } else {
                self.tracking = Some(Tracking::Lives);
            }
        } else if same_text(name, "digit") {
            match parse_u32(&chars_of(value)) {
                Some(d) => {
                    self.digit = d;
                },
                None => {},
            }
        }
    }

    /// Shows the digit of the tracked number (0 when nothing is tracked).
    pub fn update(&mut self, player_vials: u32, player_lives: u32)
        requires
            old(self)@.digit < 10,
        ensures
            final(self)@ == (UiDigitView {
                cycle: decimal_digit(
                    match old(self)@.tracking {
                        Some(Tracking::Vials) => player_vials as int,
                        Some(Tracking::Lives) => player_lives as int,
                        None => 0,
                    },
                    old(self)@.digit as nat,
                ) as u32,
                ..old(self)@
            }),
            final(self)@.cycle < 10,
    {
        let value: u32 = match self.tracking {
            Some(Tracking::Vials) => player_vials,
            Some(Tracking::Lives) => player_lives,
            None => 0,
        };
        let p = pow10(self.digit);
        let value = value / p;
        self.cycle = value % 10;
    }

    /// The name of the numeral sprite cycle that the digit shows.
    pub fn sprite_cycle(&self) -> (r: &'static str)
        requires
            self@.cycle < 10,
        ensures
            r@ == numeral_name(self@.cycle as int),
    {
        match self.cycle {
            0 => "0",
            1 => "1",
            2 => "2",
            3 => "3",
            4 => "4",
            5 => "5",
            6 => "6",
            7 => "7",
            8 => "8",
            _ => "9",
        }
    }
}

pub open spec fn numeral_name(cycle: int) -> Seq<char> {
    if cycle == 0 { "0"@ }
    else if cycle == 1 { "1"@ }
    else if cycle == 2 { "2"@ }
    else if cycle == 3 { "3"@ }
    else if cycle == 4 { "4"@ }
    else if cycle == 5 { "5"@ }
    else if cycle == 6 { "6"@ }
    else if cycle == 7 { "7"@ }
    else if cycle == 8 { "8"@ }
    else { "9"@ }
}

/// 10 to the power `digit`, which fits in an i32 for the digits 0 to 9.
fn pow10(digit: u32) -> (r: u32)
    requires
        digit < 10,
    ensures
        r == vstd::arithmetic::power::pow(10, digit as nat),
        r > 0,
{
    proof {
        reveal_with_fuel(vstd::arithmetic::power::pow, 11);
    }
    match digit {
        0 => 1,
        1 => 10,
        2 => 100,
        3 => 1_000,
        4 => 10_000,
        5 => 100_000,
        6 => 1_000_000,
        7 => 10_000_000,
        8 => 100_000_000,
        _ => 1_000_000_000,
    }
}

} // verus!
