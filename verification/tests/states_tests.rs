use pong::states::check_gameplay_runs;
use pong::states::{GameState, GameStateMachine, PausedState, TransitionEffect};

#[test]
fn fresh_machine_starts_on_main_menu() {
    let m = GameStateMachine::new();
    assert_eq!(m.state(), GameState::Main);
    assert_eq!(m.paused(), PausedState::Unpaused);
}

#[test]
fn transition_is_deferred_until_the_boundary() {
    let mut m = GameStateMachine::new();
    m.request_transition(GameState::StartGame);
    assert_eq!(m.state(), GameState::Main);
    let effect = m.apply_pending();
    assert_eq!(effect, TransitionEffect::Changed);
    assert_eq!(m.state(), GameState::StartGame);
}

#[test]
fn last_request_of_a_frame_wins() {
    let mut m = GameStateMachine::new();
    m.request_transition(GameState::Controls);
    m.request_transition(GameState::StartGame);
    m.apply_pending();
    assert_eq!(m.state(), GameState::StartGame);
}

#[test]
fn requesting_the_current_state_is_idempotent() {
    let mut m = GameStateMachine::new();
    m.request_transition(GameState::Main);
    let effect = m.apply_pending();
    assert_eq!(effect, TransitionEffect::NoChange);
    assert_eq!(m.state(), GameState::Main);
}

#[test]
fn entering_playing_resets_pause_and_signals_setup() {
    let mut m = GameStateMachine::new();
    m.request_transition(GameState::Playing);
    let effect = m.apply_pending();
    assert_eq!(effect, TransitionEffect::EnterPlaying);
    assert_eq!(m.state(), GameState::Playing);
    assert_eq!(m.paused(), PausedState::Unpaused);

    // Pause, then leave Playing: teardown is signalled regardless of pause.
    m.toggle_pause();
    assert_eq!(m.paused(), PausedState::Paused);
    m.request_transition(GameState::Main);
    let effect = m.apply_pending();
    assert_eq!(effect, TransitionEffect::ExitPlaying);

    // Re-entering Playing starts unpaused again.
    m.request_transition(GameState::Playing);
    m.apply_pending();
    assert_eq!(m.paused(), PausedState::Unpaused);
}

#[test]
fn pause_toggle_only_works_while_playing() {
    let mut m = GameStateMachine::new();
    m.toggle_pause();
    assert_eq!(m.paused(), PausedState::Unpaused);

    m.request_transition(GameState::Playing);
    m.apply_pending();
    m.toggle_pause();
    assert_eq!(m.paused(), PausedState::Paused);
    m.toggle_pause();
    assert_eq!(m.paused(), PausedState::Unpaused);
}

#[test]
fn resume_leaves_the_pause_overlay() {
    let mut m = GameStateMachine::new();
    m.request_transition(GameState::Playing);
    m.apply_pending();
    m.toggle_pause();
    m.resume();
    assert_eq!(m.paused(), PausedState::Unpaused);
    // Resuming while already unpaused changes nothing.
    m.resume();
    assert_eq!(m.paused(), PausedState::Unpaused);
}

#[test]
fn gameplay_gate_is_playing_and_unpaused() {
    assert!(check_gameplay_runs(GameState::Playing, PausedState::Unpaused));
    assert!(!check_gameplay_runs(GameState::Playing, PausedState::Paused));
    assert!(!check_gameplay_runs(GameState::Main, PausedState::Unpaused));
    assert!(!check_gameplay_runs(GameState::EndGame, PausedState::Paused));
}
