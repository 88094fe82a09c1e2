//! The match score.
//!
//! A pair of counters, one per player. A goal sensor is owned by the side it
//! defends, so a point on a sensor goes to the opposite player. The match
//! ends as soon as either counter reaches [`MAX_SCORE`].

use vstd::prelude::*;
use vstd::string::StringExecFns;

verus! {

/// A match ends when either player reaches this many points.
pub const MAX_SCORE: u32 = 5;

/// Which side of the arena a goal sensor guards, and which goal a paddle
/// defends.
#[derive(Clone, Copy, Debug, PartialEq, Eq, Structural)]
pub enum ScoreField {
    Left,
    Right,
}

/// The running score of the current match.
#[derive(Clone, Copy, Debug, PartialEq, Eq, Structural)]
pub struct Score {
    player1: u32,
    player2: u32,
}

impl Score {
    pub closed spec fn spec_player1(self) -> u32 {
        self.player1
    }

    pub closed spec fn spec_player2(self) -> u32 {
        self.player2
    }

    /// The match is over exactly when either counter has reached the
    /// threshold.
    pub open spec fn spec_game_end(self) -> bool {
        self.spec_player1() >= MAX_SCORE || self.spec_player2() >= MAX_SCORE
    }

    pub fn player1(&self) -> (n: u32)
        ensures
            n == self.spec_player1(),
    {
        self.player1
    }

    pub fn player2(&self) -> (n: u32)
        ensures
            n == self.spec_player2(),
    {
        self.player2
    }

    /// Set both counters back to zero, as session setup does.
    pub fn reset(&mut self)
        ensures
            final(self).spec_player1() == 0,
            final(self).spec_player2() == 0,
    {
        self.player1 = 0;
        self.player2 = 0;
    }

    /// Attribute one point for a goal on the given sensor: the ball reaching
    /// the right sensor scores for player 1, the left sensor for player 2 —
    /// always the side opposite the sensor hit. Exactly one counter moves,
    /// by exactly one.
    pub fn add_point(&mut self, field: &ScoreField)
        requires
            *field == ScoreField::Right ==> old(self).spec_player1() < u32::MAX,
            *field == ScoreField::Left ==> old(self).spec_player2() < u32::MAX,
        ensures
            *field == ScoreField::Right ==> final(self).spec_player1() == old(self).spec_player1()
                + 1 && final(self).spec_player2() == old(self).spec_player2(),
            *field == ScoreField::Left ==> final(self).spec_player2() == old(self).spec_player2()
                + 1 && final(self).spec_player1() == old(self).spec_player1(),
    {
        match field {
            ScoreField::Right => self.player1 = self.player1 + 1,
            ScoreField::Left => self.player2 = self.player2 + 1,
        }
    }

    /// Whether the match is over.
    pub fn is_game_end(&self) -> (r: bool)
        ensures
            r == self.spec_game_end(),
    {
        self.player1 >= MAX_SCORE || self.player2 >= MAX_SCORE
    }

    /// The winner's name: player 1 if it reached the threshold, otherwise
    /// player 2. Meaningful once the match has ended.
    pub fn get_winner(&self) -> (r: String)
        ensures
            self.spec_player1() >= MAX_SCORE ==> r@ == "Player 1"@,
            self.spec_player1() < MAX_SCORE ==> r@ == "Player 2"@,
    {
        if self.player1 >= MAX_SCORE {
            String::from_str("Player 1")
        } else {
            String::from_str("Player 2")
        }
    }

    /// The scoreboard line, player 1's points first: `"0 - 0"` at the start
    /// of a match.
    pub fn display_text(&self) -> (r: String)
        ensures
            r@ == spec_decimal(self.spec_player1() as int) + " - "@ + spec_decimal(
                self.spec_player2() as int,
            ),
    {
        let mut text = String::new();
        push_decimal(self.player1, &mut text);
        text.append(" - ");
        push_decimal(self.player2, &mut text);
        proof {
            assert(text@ =~= spec_decimal(self.spec_player1() as int) + " - "@ + spec_decimal(
                self.spec_player2() as int,
            ));
        }
        text
    }
}

impl Default for Score {
    /// A match starts at zero points each.
    fn default() -> (s: Score)
        ensures
            s.spec_player1() == 0,
            s.spec_player2() == 0,
    {
        Score { player1: 0, player2: 0 }
    }
}

/// The character for one decimal digit.
pub open spec fn spec_digit(d: int) -> char {
    if d == 0 {
        '0'
    } else if d == 1 {
        '1'
    } else if d == 2 {
        '2'
    } else if d == 3 {
        '3'
    } else if d == 4 {
        '4'
    } else if d == 5 {
        '5'
    } else if d == 6 {
        '6'
    } else if d == 7 {
        '7'
    } else if d == 8 {
        '8'
    } else {
        '9'
    }
}

/// The usual decimal rendering of a non-negative number, most significant
/// digit first and without leading zeroes.
pub open spec fn spec_decimal(n: int) -> Seq<char>
    decreases n,
{
    if n < 10 {
        seq![spec_digit(n)]
    } else {
        spec_decimal(n / 10).push(spec_digit(n % 10))
    }
}

/// The one-character string for a decimal digit.
fn digit_str(d: u32) -> (s: &'static str)
    requires
        d < 10,
    ensures
        s@ == seq![spec_digit(d as int)],
{
    proof {
        reveal_strlit("0");
        reveal_strlit("1");
        reveal_strlit("2");
        reveal_strlit("3");
        reveal_strlit("4");
        reveal_strlit("5");
        reveal_strlit("6");
        reveal_strlit("7");
        reveal_strlit("8");
        reveal_strlit("9");
    }
    match d {
        0 => "0",
        1 => "1",
        2 => "2",
        3 => "3",
        4 => "4",
        5 => "5",
        6 => "6",
        7 => "7",
        8 => "8",
        _ => "9",
    }
}

/// Append the decimal rendering of `n` to `text`.
pub fn push_decimal(n: u32, text: &mut String)
    ensures
        final(text)@ == old(text)@ + spec_decimal(n as int),
    decreases n,
{
    if n < 10 {
        text.append(digit_str(n));
    } else {
        push_decimal(n / 10, text);
        text.append(digit_str(n % 10));
        proof {
            assert(text@ =~= old(text)@ + spec_decimal(n as int));
        }
    }
}

} // verus!
