//! Per-player configuration.
//!
//! Each of the two player slots is either a human or a computer with a
//! difficulty. The settings are created with defaults at start, overwritten
//! only by explicit commands from the setup menu, and read by the session
//! lifecycle and the motion rules.

use vstd::prelude::*;

verus! {

/// How hard a computer opponent tracks the ball.
#[derive(Clone, Copy, Debug, PartialEq, Eq, Structural)]
pub enum Difficulty {
    Easy,
    Difficult,
    Impossible,
}

impl Difficulty {
    /// The maximum vertical tracking speed of a computer paddle, in arena
    /// units per fixed tick.
    pub closed spec fn spec_speed(self) -> i64 {
        match self {
            Difficulty::Easy => 6,
            Difficulty::Difficult => 12,
            Difficulty::Impossible => 18,
        }
    }

    /// The tracking speed is positive and strictly increases with the
    /// difficulty.
    pub proof fn lemma_speed_monotone()
        ensures
            0 < Difficulty::Easy.spec_speed(),
            Difficulty::Easy.spec_speed() < Difficulty::Difficult.spec_speed(),
            Difficulty::Difficult.spec_speed() < Difficulty::Impossible.spec_speed(),
    {
    }

    pub fn speed(&self) -> (s: i64)
        ensures
            s == self.spec_speed(),
            0 < s <= 18,
    {
        match self {
            Difficulty::Easy => 6,
            Difficulty::Difficult => 12,
            Difficulty::Impossible => 18,
        }
    }
}

/// Who controls a player slot.
#[derive(Clone, Copy, Debug, PartialEq, Eq, Structural)]
pub enum PlayerType {
    Human,
    Computer(Difficulty),
}

/// The two player slots.
#[derive(Clone, Copy, Debug, PartialEq, Eq, Structural)]
pub struct GameSettings {
    player1: PlayerType,
    player2: PlayerType,
}

impl GameSettings {
    pub closed spec fn spec_player1(self) -> PlayerType {
        self.player1
    }

    pub closed spec fn spec_player2(self) -> PlayerType {
        self.player2
    }

    pub fn get_player1(&self) -> (p: &PlayerType)
        ensures
            *p == self.spec_player1(),
    {
        &self.player1
    }

    pub fn get_player2(&self) -> (p: &PlayerType)
        ensures
            *p == self.spec_player2(),
    {
        &self.player2
    }

    /// Overwrite one player slot. A slot number other than 1 or 2 can only
    /// arise from a code defect, not from user input, so it is ruled out
    /// here rather than handled.
    pub fn update_players(&mut self, player_num: usize, player_type: PlayerType)
        requires
            player_num == 1 || player_num == 2,
        ensures
            player_num == 1 ==> final(self).spec_player1() == player_type
                && final(self).spec_player2() == old(self).spec_player2(),
            player_num == 2 ==> final(self).spec_player2() == player_type
                && final(self).spec_player1() == old(self).spec_player1(),
    {
        match player_num {
            1 => self.player1 = player_type,
            _ => self.player2 = player_type,
        }
    }
}

impl Default for GameSettings {
    /// At process start player 1 is human and player 2 an easy computer.
    fn default() -> (s: GameSettings)
        ensures
            s.spec_player1() == PlayerType::Human,
            s.spec_player2() == PlayerType::Computer(Difficulty::Easy),
    {
        GameSettings {
            player1: PlayerType::Human,
            player2: PlayerType::Computer(Difficulty::Easy),
        }
    }
}

/// A deferred "set player slot N to type T" command issued from the setup
/// menu; it is queued while the menu runs and applied to the settings later
/// in the frame.
#[derive(Clone, Copy, Debug, PartialEq, Eq, Structural)]
pub struct UpdatePlayerCommand {
    player_num: usize,
    player_type: PlayerType,
}

impl UpdatePlayerCommand {
    pub closed spec fn spec_player_num(self) -> usize {
        self.player_num
    }

    pub closed spec fn spec_player_type(self) -> PlayerType {
        self.player_type
    }

    pub fn new(player_num: usize, player_type: PlayerType) -> (c: UpdatePlayerCommand)
        ensures
            c.spec_player_num() == player_num,
            c.spec_player_type() == player_type,
    {
        UpdatePlayerCommand { player_num, player_type }
    }

    /// Apply the command to the settings store.
    pub fn apply(self, settings: &mut GameSettings)
        requires
            self.spec_player_num() == 1 || self.spec_player_num() == 2,
        ensures
            self.spec_player_num() == 1 ==> final(settings).spec_player1()
                == self.spec_player_type() && final(settings).spec_player2()
                == old(settings).spec_player2(),
            self.spec_player_num() == 2 ==> final(settings).spec_player2()
                == self.spec_player_type() && final(settings).spec_player1()
                == old(settings).spec_player1(),
    {
        settings.update_players(self.player_num, self.player_type);
    }
}

} // verus!
