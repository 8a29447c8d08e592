//! What a frame shows, as plain values: the blocks to paint, the status
//! line, and whether the game-over overlay lies on top.

use vstd::prelude::*;
use vstd::string::StringExecFns;

use crate::physics::Position;

verus! {

/// The status line's place in the window, from the left edge.
pub const STATUS_X: i32 = 0;

/// The status line's place in the window, from the top edge.
pub const STATUS_Y: i32 = 20;

/// Everything one frame shows.
#[derive(Clone, Debug, PartialEq, Eq)]
pub struct Frame {
    /// The cell of the fruit block.
    pub fruit: Position,
    /// The cells of the snake's blocks, head first.
    pub snake: Vec<Position>,
    /// The status line.
    pub status: String,
    /// The status line's place in the window.
    pub status_at: Position,
    /// The size of the grid that the game-over overlay covers, in cells, if
    /// the game is over.
    pub overlay: Option<(u32, u32)>,
}

/// The character of a decimal digit.
pub open spec fn digit(d: nat) -> char
    recommends
        d < 10,
{
    if d == 0 {
        '0'
    } else if d == 1 {
        '1'
    } else if d == 2 {
        '2'
    } else if d == 3 {
        '3'
    } else if d == 4 {
        '4'
    } else if d == 5 {
        '5'
    } else if d == 6 {
        '6'
    } else if d == 7 {
        '7'
    } else if d == 8 {
        '8'
    } else {
        '9'
    }
}

/// A number in decimal, without leading zeros.
pub open spec fn decimal(n: nat) -> Seq<char>
    decreases n,
{
    if n < 10 {
        seq![digit(n)]
    } else {
        decimal(n / 10).push(digit(n % 10))
    }
}

/// The number that a string of decimal digits stands for.
pub open spec fn decimal_value(digits: Seq<char>) -> nat
    decreases digits.len(),
{
    if digits.len() == 0 {
        0
    } else {
        10 * decimal_value(digits.drop_last()) + (digits.last() as nat - '0' as nat) as nat
    }
}

/// The speed shown for a rate given in fifths of a tick per second: a tenth
/// of the rate in ticks per second, which is `rate / 50`, written in decimal
/// with as many places after the point as it needs, at most two.
pub open spec fn speed_text(rate: nat) -> Seq<char> {
    let whole: nat = rate / 50;
    let hundredths: nat = 2 * (rate % 50);
    if hundredths == 0 {
        decimal(whole)
    } else if hundredths % 10 == 0 {
        decimal(whole) + seq!['.', digit(hundredths / 10)]
    } else {
        decimal(whole) + seq!['.', digit(hundredths / 10), digit(hundredths % 10)]
    }
}

/// The status line of a score and a rate, the rate in fifths of a tick per
/// second: the score, then the speed.
pub open spec fn status_text(score: u32, rate: u64) -> Seq<char> {
    decimal(score as nat) + " | Running at "@ + speed_text(rate as nat) + "x speed"@
}

/// The text of one decimal digit.
fn digit_str(d: u64) -> (text: &'static str)
    requires
        d < 10,
    ensures
        text@ == seq![digit(d as nat)],
{
    proof {
        reveal_strlit("0");
        reveal_strlit("1");
        reveal_strlit("2");
        reveal_strlit("3");
        reveal_strlit("4");
        reveal_strlit("5");
        reveal_strlit("6");
        reveal_strlit("7");
        reveal_strlit("8");
        reveal_strlit("9");
    }
    let text = match d {
        0 => "0",
        1 => "1",
        2 => "2",
        3 => "3",
        4 => "4",
        5 => "5",
        6 => "6",
        7 => "7",
        8 => "8",
        _ => "9",
    };
    assert(text@ =~= seq![digit(d as nat)]);
    text
}

/// Appends `n` in decimal to `text`.
pub fn push_decimal(text: &mut String, n: u64)
    ensures
        final(text)@ == old(text)@ + decimal(n as nat),
    decreases n,
{
    if n >= 10 {
        push_decimal(text, n / 10);
    }
    text.append(digit_str(n % 10));
    assert(text@ =~= old(text)@ + decimal(n as nat));
}

/// Appends the speed that goes with `rate` to `text`: see [`speed_text`].
pub fn push_speed(text: &mut String, rate: u64)
    ensures
        final(text)@ == old(text)@ + speed_text(rate as nat),
{
    let whole: u64 = rate / 50;
    let hundredths: u64 = 2 * (rate % 50);
    push_decimal(text, whole);
    if hundredths != 0 {
        proof {
            reveal_strlit(".");
        }
        text.append(".");
        text.append(digit_str(hundredths / 10));
        if hundredths % 10 != 0 {
            text.append(digit_str(hundredths % 10));
        }
    }
    assert(text@ =~= old(text)@ + speed_text(rate as nat));
}

/// The status line: see [`status_text`].
pub fn format_status(score: u32, rate: u64) -> (text: String)
    ensures
        text@ == status_text(score, rate),
{
    let mut text = String::new();
    push_decimal(&mut text, score as u64);
    text.append(" | Running at ");
    push_speed(&mut text, rate);
    text.append("x speed");
    assert(text@ =~= status_text(score, rate));
    text
}

/// The decimal form of a number stands for that number, and starts with a
/// zero only if the number is zero.
pub proof fn lemma_decimal_value(n: nat)
    ensures
        decimal_value(decimal(n)) == n,
        decimal(n).len() >= 1,
        decimal(n)[0] == '0' <==> n == 0,
    decreases n,
{
    if n < 10 {
        assert(decimal(n).drop_last() =~= Seq::<char>::empty());
        assert(decimal_value(Seq::<char>::empty()) == 0);
    } else {
        lemma_decimal_value(n / 10);
        assert(decimal(n).drop_last() =~= decimal(n / 10));
    }
}

} // verus!
