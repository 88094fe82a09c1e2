//! The decisions the menus make.
//!
//! The menu screens themselves are host UI; what they do when a widget is
//! activated is core logic: request a state transition, resume from the
//! pause overlay, overwrite a player slot, start listening for a key
//! remap, or quit. The front end reports the activated widget's action and
//! the core applies it.

use crate::controls::{ControlRemapping, GameAction};
use crate::game::Game;
use crate::settings::UpdatePlayerCommand;
use crate::states::{GameState, PausedState};
use vstd::prelude::*;

verus! {

/// One activated menu widget's effect.
#[derive(Clone, Copy, Debug, PartialEq, Eq, Structural)]
pub enum MenuAction {
    /// Request a transition to another game state, applied at the frame
    /// boundary.
    ChangeState(GameState),
    /// Leave the pause overlay and let gameplay continue.
    ResumeGame,
    /// Set a player slot to a player type.
    UpdatePlayer(UpdatePlayerCommand),
    /// Begin listening for a key press that rebinds an action.
    StartRemapping(GameAction),
    /// Leave the program.
    QuitGame,
}

/// Apply one menu action to the game. Exactly the named piece of state
/// changes; the result says whether the program should exit.
pub fn apply_menu_action(game: &mut Game, action: MenuAction) -> (quit: bool)
    requires
        old(game).wf(),
        (action matches MenuAction::UpdatePlayer(c) ==> c.spec_player_num() == 1
            || c.spec_player_num() == 2),
    ensures
        final(game).wf(),
        final(game).machine.spec_state() == old(game).machine.spec_state(),
        final(game).score == old(game).score,
        final(game).session == old(game).session,
        final(game).controls == old(game).controls,
        quit == (action == MenuAction::QuitGame),
        match action {
            MenuAction::ChangeState(target) => {
                &&& final(game).machine.spec_pending() == Some(target)
                &&& final(game).machine.spec_paused() == old(game).machine.spec_paused()
                &&& final(game).settings == old(game).settings
                &&& final(game).remapping == old(game).remapping
            },
            MenuAction::ResumeGame => {
                &&& final(game).machine.spec_pending() == old(game).machine.spec_pending()
                &&& (old(game).machine.spec_state() == GameState::Playing ==> final(game).machine.spec_paused() == PausedState::Unpaused)
                &&& (old(game).machine.spec_state() != GameState::Playing ==> final(game).machine.spec_paused() == old(game).machine.spec_paused())
                &&& final(game).settings == old(game).settings
                &&& final(game).remapping == old(game).remapping
            },
            MenuAction::UpdatePlayer(command) => {
                &&& final(game).machine == old(game).machine
                &&& final(game).remapping == old(game).remapping
                &&& (command.spec_player_num() == 1 ==> final(game).settings.spec_player1()
                    == command.spec_player_type() && final(game).settings.spec_player2() == old(game).settings.spec_player2())
                &&& (command.spec_player_num() == 2 ==> final(game).settings.spec_player2()
                    == command.spec_player_type() && final(game).settings.spec_player1() == old(game).settings.spec_player1())
            },
            MenuAction::StartRemapping(control) => {
                &&& final(game).machine == old(game).machine
                &&& final(game).settings == old(game).settings
                &&& final(game).remapping.spec_current_action() == Some(control)
                &&& final(game).remapping.spec_is_listening()
            },
            MenuAction::QuitGame => *final(game) == *old(game),
        },
{
    match action {
        MenuAction::ChangeState(target) => {
            game.machine.request_transition(target);
            false
        },
        MenuAction::ResumeGame => {
            game.machine.resume();
            false
        },
        MenuAction::UpdatePlayer(command) => {
            command.apply(&mut game.settings);
            false
        },
        MenuAction::StartRemapping(control) => {
            game.remapping = ControlRemapping::start_remapping(control);
            false
        },
        MenuAction::QuitGame => true,
    }
}

} // verus!
