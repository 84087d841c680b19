//! What the display shows for a heart rate, and which source feeds it.

use crate::decoder::UNKNOWN;
use vstd::prelude::*;

verus! {

/// Where the heart rates come from.
#[derive(Clone, Copy, Debug, PartialEq, Eq, Structural)]
pub enum Mode {
    /// From the strap, over Bluetooth.
    Live,
    /// From the simulated source, with no hardware.
    Simulated,
}

/// Chooses the source from the length of the command line, the program's own
/// name included: any argument after the name selects the simulated source.
pub fn select_mode(command_line_len: usize) -> (mode: Mode)
    ensures
        mode == if command_line_len > 1 {
            Mode::Simulated
        } else {
            Mode::Live
        },
{
    if command_line_len > 1 {
        Mode::Simulated
    } else {
        Mode::Live
    }
}

/// The character that stands for a digit.
pub open spec fn digit(d: int) -> char {
    if d == 0 {
        '0'
    } else if d == 1 {
        '1'
    } else if d == 2 {
        '2'
    } else if d == 3 {
        '3'
    } else if d == 4 {
        '4'
    } else if d == 5 {
        '5'
    } else if d == 6 {
        '6'
    } else if d == 7 {
        '7'
    } else if d == 8 {
        '8'
    } else {
        '9'
    }
}

/// A value in decimal, without leading zeros.
pub open spec fn decimal(value: u8) -> Seq<char> {
    if value >= 100 {
        seq![digit(value as int / 100), digit(value as int / 10 % 10), digit(value as int % 10)]
    } else if value >= 10 {
        seq![digit(value as int / 10), digit(value as int % 10)]
    } else {
        seq![digit(value as int)]
    }
}

/// The text of the label: two dashes while the heart rate is unknown, else
/// the heart rate in decimal.
pub open spec fn label_text(rate: u8) -> Seq<char> {
    if rate == UNKNOWN {
        seq!['-', '-']
    } else {
        decimal(rate)
    }
}

fn digit_str(d: u8) -> (text: &'static str)
    requires
        d < 10,
    ensures
        text@ == seq![digit(d as int)],
{
    proof {
        reveal_strlit("0");
        reveal_strlit("1");
        reveal_strlit("2");
        reveal_strlit("3");
        reveal_strlit("4");
        reveal_strlit("5");
        reveal_strlit("6");
        reveal_strlit("7");
        reveal_strlit("8");
        reveal_strlit("9");
    }
    let text = match d {
        0 => "0",
        1 => "1",
        2 => "2",
        3 => "3",
        4 => "4",
        5 => "5",
        6 => "6",
        7 => "7",
        8 => "8",
        _ => "9",
    };
    assert(text@ =~= seq![digit(d as int)]);
    text
}

/// The text that the label shows for a heart rate.
pub fn label(rate: u8) -> (text: String)
    ensures
        text@ == label_text(rate),
{
    if rate == UNKNOWN {
        proof {
            reveal_strlit("--");
        }
        let text = String::from_str("--");
        assert(text@ =~= seq!['-', '-']);
        text
    } else {
        let mut text = String::new();
        if rate >= 100 {
            text.append(digit_str(rate / 100));
        }
        if rate >= 10 {
            text.append(digit_str(rate / 10 % 10));
        }
        text.append(digit_str(rate % 10));
        assert(text@ =~= decimal(rate));
        text
    }
}

} // verus!
