//! The top-level game state machine.
//!
//! The game is always in exactly one [`GameState`]; while it is `Playing` a
//! [`PausedState`] sub-state tells whether gameplay is running or the pause
//! overlay is up. Transitions are never applied in the middle of a frame:
//! they are requested, remembered as pending, and applied at the frame
//! boundary, which also reports whether a session must be set up or torn
//! down.

use vstd::prelude::*;

verus! {

/// The top-level mode of the game.
#[derive(Clone, Copy, Debug, PartialEq, Eq, Structural)]
pub enum GameState {
    Main,
    Controls,
    StartGame,
    Playing,
    EndGame,
}

/// The pause sub-state; meaningful only while the game state is `Playing`.
#[derive(Clone, Copy, Debug, PartialEq, Eq, Structural)]
pub enum PausedState {
    Unpaused,
    Paused,
}

/// What the frame boundary must do after a transition was applied.
#[derive(Clone, Copy, Debug, PartialEq, Eq, Structural)]
pub enum TransitionEffect {
    /// No state change happened; nothing to set up or tear down.
    NoChange,
    /// The game entered `Playing`: a session must be set up.
    EnterPlaying,
    /// The game left `Playing`: the session must be torn down.
    ExitPlaying,
    /// A change between two states other than `Playing`.
    Changed,
}

/// Holds the current state pair and the transition requested this frame.
///
/// `request_transition` is the only mutator of the pending request, and
/// `apply_pending` the only mutator of the current state, so a transition
/// can never run in the middle of a gated system's own evaluation.
#[derive(Clone, Copy, Debug, PartialEq, Eq, Structural)]
pub struct GameStateMachine {
    state: GameState,
    paused: PausedState,
    pending: Option<GameState>,
}

impl GameStateMachine {
    pub closed spec fn spec_state(self) -> GameState {
        self.state
    }

    pub closed spec fn spec_paused(self) -> PausedState {
        self.paused
    }

    pub closed spec fn spec_pending(self) -> Option<GameState> {
        self.pending
    }

    /// The machine starts on the main menu, unpaused, with nothing pending.
    pub fn new() -> (m: GameStateMachine)
        ensures
            m.spec_state() == GameState::Main,
            m.spec_paused() == PausedState::Unpaused,
            m.spec_pending() is None,
    {
        GameStateMachine { state: GameState::Main, paused: PausedState::Unpaused, pending: None }
    }

    pub fn state(&self) -> (s: GameState)
        ensures
            s == self.spec_state(),
    {
        self.state
    }

    pub fn paused(&self) -> (p: PausedState)
        ensures
            p == self.spec_paused(),
    {
        self.paused
    }

    /// Remember a transition to apply at the next frame boundary. A later
    /// request within the same frame overrides an earlier one.
    pub fn request_transition(&mut self, new_state: GameState)
        ensures
            final(self).spec_state() == old(self).spec_state(),
            final(self).spec_paused() == old(self).spec_paused(),
            final(self).spec_pending() == Some(new_state),
    {
        self.pending = Some(new_state);
    }

    /// Flip the pause sub-state, but only while the game is `Playing`;
    /// everywhere else the pause toggle is not wired up and does nothing.
    pub fn toggle_pause(&mut self)
        ensures
            final(self).spec_state() == old(self).spec_state(),
            final(self).spec_pending() == old(self).spec_pending(),
            old(self).spec_state() == GameState::Playing ==> final(self).spec_paused() == flip(
                old(self).spec_paused(),
            ),
            old(self).spec_state() != GameState::Playing ==> final(self).spec_paused() == old(
                self,
            ).spec_paused(),
    {
        if self.state == GameState::Playing {
            self.paused = match self.paused {
                PausedState::Unpaused => PausedState::Paused,
                PausedState::Paused => PausedState::Unpaused,
            };
        }
    }

    /// Leave the pause overlay: while the game is `Playing` the pause
    /// sub-state goes back to `Unpaused`; anywhere else nothing happens.
    pub fn resume(&mut self)
        ensures
            final(self).spec_state() == old(self).spec_state(),
            final(self).spec_pending() == old(self).spec_pending(),
            old(self).spec_state() == GameState::Playing ==> final(self).spec_paused()
                == PausedState::Unpaused,
            old(self).spec_state() != GameState::Playing ==> final(self).spec_paused() == old(
                self,
            ).spec_paused(),
    {
        if self.state == GameState::Playing {
            self.paused = PausedState::Unpaused;
        }
    }

    /// Apply the pending transition, if any, at the frame boundary.
    ///
    /// Requesting the state the machine is already in is idempotent: the
    /// request is dropped and no setup or teardown is signalled. Entering
    /// `Playing` always resets the pause sub-state to `Unpaused`; leaving
    /// `Playing` signals teardown unconditionally, whatever the pause
    /// sub-state was.
    pub fn apply_pending(&mut self) -> (effect: TransitionEffect)
        ensures
            final(self).spec_pending() is None,
            match old(self).spec_pending() {
                None => {
                    &&& final(self).spec_state() == old(self).spec_state()
                    &&& final(self).spec_paused() == old(self).spec_paused()
                    &&& effect == TransitionEffect::NoChange
                },
                Some(target) => {
                    if target == old(self).spec_state() {
                        &&& final(self).spec_state() == old(self).spec_state()
                        &&& final(self).spec_paused() == old(self).spec_paused()
                        &&& effect == TransitionEffect::NoChange
                    } else {
                        &&& final(self).spec_state() == target
                        &&& (target == GameState::Playing ==> final(self).spec_paused()
                            == PausedState::Unpaused && effect == TransitionEffect::EnterPlaying)
                        &&& (old(self).spec_state() == GameState::Playing ==> effect
                            == TransitionEffect::ExitPlaying)
                        &&& (target != GameState::Playing && old(self).spec_state()
                            != GameState::Playing ==> effect == TransitionEffect::Changed
                            && final(self).spec_paused() == old(self).spec_paused())
                    }
                },
            },
    {
        let pending = self.pending;
        self.pending = None;
        match pending {
            None => TransitionEffect::NoChange,
            Some(target) => {
                if target == self.state {
                    TransitionEffect::NoChange
                } else {
                    let was_playing = self.state == GameState::Playing;
                    self.state = target;
                    if target == GameState::Playing {
                        self.paused = PausedState::Unpaused;
                        TransitionEffect::EnterPlaying
                    } else if was_playing {
                        TransitionEffect::ExitPlaying
                    } else {
                        TransitionEffect::Changed
                    }
                }
            },
        }
    }

}

/// The opposite pause sub-state.
pub open spec fn flip(p: PausedState) -> PausedState {
    match p {
        PausedState::Unpaused => PausedState::Paused,
        PausedState::Paused => PausedState::Unpaused,
    }
}

/// Gate for the main-menu systems.
pub open spec fn main_menu_runs(state: GameState) -> bool {
    state == GameState::Main
}

/// Gate for the controls-menu systems, key remapping included.
pub open spec fn controls_menu_runs(state: GameState) -> bool {
    state == GameState::Controls
}

/// Gate for the match-setup menu systems.
pub open spec fn start_menu_runs(state: GameState) -> bool {
    state == GameState::StartGame
}

/// Gate for the end-of-match menu systems.
pub open spec fn end_menu_runs(state: GameState) -> bool {
    state == GameState::EndGame
}

/// Gate for the gameplay systems (motion, scoring, speed-up): they run only
/// while playing and unpaused, on the fixed-timestep tick.
pub open spec fn gameplay_runs(state: GameState, paused: PausedState) -> bool {
    state == GameState::Playing && paused == PausedState::Unpaused
}

/// Gate for the pause overlay: shown while playing and paused.
pub open spec fn pause_menu_runs(state: GameState, paused: PausedState) -> bool {
    state == GameState::Playing && paused == PausedState::Paused
}

/// Gate for the pause-toggle input: it listens whenever the game is
/// `Playing`, whatever the pause sub-state.
pub open spec fn pause_toggle_runs(state: GameState) -> bool {
    state == GameState::Playing
}

/// Executable form of [`gameplay_runs`].
pub fn check_gameplay_runs(state: GameState, paused: PausedState) -> (r: bool)
    ensures
        r == gameplay_runs(state, paused),
{
    state == GameState::Playing && paused == PausedState::Unpaused
}

/// While the game is `Playing`, the gameplay gate and the pause-overlay gate
/// are mutually exclusive and collectively exhaustive over the pause
/// sub-state: every frame runs exactly one of the two.
pub proof fn lemma_pause_gates_partition(state: GameState, paused: PausedState)
    requires
        state == GameState::Playing,
    ensures
        gameplay_runs(state, paused) != pause_menu_runs(state, paused),
{
}

/// Over all state pairs, exactly one of the six system gates is open: the
/// four menu gates, the gameplay gate and the pause-overlay gate partition
/// the whole state space.
pub proof fn lemma_gates_partition(state: GameState, paused: PausedState)
    ensures
        (if main_menu_runs(state) {
            1int
        } else {
            0int
        }) + (if controls_menu_runs(state) {
            1int
        } else {
            0int
        }) + (if start_menu_runs(state) {
            1int
        } else {
            0int
        }) + (if end_menu_runs(state) {
            1int
        } else {
            0int
        }) + (if gameplay_runs(state, paused) {
            1int
        } else {
            0int
        }) + (if pause_menu_runs(state, paused) {
            1int
        } else {
            0int
        }) == 1,
{
}

} // verus!
