//! The texts the game shows that depend on its state: the score and
//! lives lines of the head-up display and the final-score message of
//! the game-over screen.  The decimal rendering is verified digit by
//! digit.

use vstd::prelude::*;
use crate::score::GameScore;

verus! {

/// The decimal digit character for one digit value.
pub open spec fn digit_char(d: int) -> char {
    if d == 0 {
        '0'
    } else if d == 1 {
        '1'
    } else if d == 2 {
        '2'
    } else if d == 3 {
        '3'
    } else if d == 4 {
        '4'
    } else if d == 5 {
        '5'
    } else if d == 6 {
        '6'
    } else if d == 7 {
        '7'
    } else if d == 8 {
        '8'
    } else {
        '9'
    }
}

/// The usual decimal writing of `n`: most significant digit first, no
/// leading zeroes (a single `'0'` for zero).
pub open spec fn dec_seq(n: nat) -> Seq<char>
    decreases n,
{
    if n < 10 {
        seq![digit_char(n as int)]
    } else {
        dec_seq(n / 10).push(digit_char((n % 10) as int))
    }
}

/// Append one digit character to a string.
fn push_digit(s: &mut String, d: u32)
    requires
        d < 10,
    ensures
        final(s)@ == old(s)@.push(digit_char(d as int)),
{
    if d == 0 {
        s.append("0");
        proof {
            reveal_strlit("0");
            assert(old(s)@ + "0"@ =~= old(s)@.push('0'));
        }
    } else if d == 1 {
        s.append("1");
        proof {
            reveal_strlit("1");
            assert(old(s)@ + "1"@ =~= old(s)@.push('1'));
        }
    } else if d == 2 {
        s.append("2");
        proof {
            reveal_strlit("2");
            assert(old(s)@ + "2"@ =~= old(s)@.push('2'));
        }
    } else if d == 3 {
        s.append("3");
        proof {
            reveal_strlit("3");
            assert(old(s)@ + "3"@ =~= old(s)@.push('3'));
        }
    } else if d == 4 {
        s.append("4");
        proof {
            reveal_strlit("4");
            assert(old(s)@ + "4"@ =~= old(s)@.push('4'));
        }
    } else if d == 5 {
        s.append("5");
        proof {
            reveal_strlit("5");
            assert(old(s)@ + "5"@ =~= old(s)@.push('5'));
        }
    } else if d == 6 {
        s.append("6");
        proof {
            reveal_strlit("6");
            assert(old(s)@ + "6"@ =~= old(s)@.push('6'));
        }
    } else if d == 7 {
        s.append("7");
        proof {
            reveal_strlit("7");
            assert(old(s)@ + "7"@ =~= old(s)@.push('7'));
        }
    } else if d == 8 {
        s.append("8");
        proof {
            reveal_strlit("8");
            assert(old(s)@ + "8"@ =~= old(s)@.push('8'));
        }
    } else {
        s.append("9");
        proof {
            reveal_strlit("9");
            assert(old(s)@ + "9"@ =~= old(s)@.push('9'));
        }
    }
}

/// Render `n` in decimal.
pub fn dec_string(n: u32) -> (s: String)
    ensures
        s@ == dec_seq(n as nat),
    decreases n,
{
    if n < 10 {
        let mut s = String::new();
        push_digit(&mut s, n);
        proof {
            assert(Seq::<char>::empty().push(digit_char(n as int)) =~= seq![
                digit_char(n as int),
            ]);
        }
        s
    } else {
        let mut s = dec_string(n / 10);
        push_digit(&mut s, n % 10);
        s
    }
}

/// The head-up display's score line.
pub open spec fn score_line(value: u32) -> Seq<char> {
    "Score: "@ + dec_seq(value as nat)
}

/// The head-up display's lives line.
pub open spec fn lives_line(lives: u32) -> Seq<char> {
    "Lives: "@ + dec_seq(lives as nat)
}

/// Refresh the head-up display: the score and lives lines for the
/// current counters.
pub fn update_ui(score: &GameScore) -> (r: (String, String))
    ensures
        r.0@ == score_line(score.value),
        r.1@ == lives_line(score.lives),
{
    let mut s = String::from_str("Score: ");
    let value_digits = dec_string(score.value);
    s.append(value_digits.as_str());
    let mut l = String::from_str("Lives: ");
    let lives_digits = dec_string(score.lives);
    l.append(lives_digits.as_str());
    (s, l)
}

/// The message of the game-over screen, final score included.
pub open spec fn game_over_text(value: u32) -> Seq<char> {
    "Final Score: "@ + dec_seq(value as nat)
        + "\n\nPress R to restart\nPress ESC to quit"@
}

/// Render the game-over message for a final score.
pub fn final_score_text(value: u32) -> (s: String)
    ensures
        s@ == game_over_text(value),
{
    let mut s = String::from_str("Final Score: ");
    let value_digits = dec_string(value);
    s.append(value_digits.as_str());
    s.append("\n\nPress R to restart\nPress ESC to quit");
    s
}

} // verus!
