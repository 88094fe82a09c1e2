use pong::score::{Score, ScoreField, MAX_SCORE};
use pong::scoring::{detect_point, process_point_events, CollisionEvent, OnPointScored};
use pong::session::Session;
use pong::settings::GameSettings;
use pong::states::{GameState, GameStateMachine};

fn test_session() -> Session {
    Session::setup_game(&GameSettings::default(), 1200, 600)
}

/// The handle whose entity is the goal sensor of `side`, found by probing.
fn find_sensor(session: &Session, side: ScoreField) -> usize {
    for handle in 0..32 {
        if session.sensor_side(handle) == Some(side) {
            return handle;
        }
    }
    panic!("sensor not found");
}

#[test]
fn score_starts_at_zero_and_counts_per_side() {
    let mut score = Score::default();
    assert_eq!(score.player1(), 0);
    assert_eq!(score.player2(), 0);
    score.add_point(&ScoreField::Right);
    assert_eq!(score.player1(), 1);
    assert_eq!(score.player2(), 0);
    score.add_point(&ScoreField::Left);
    assert_eq!(score.player1(), 1);
    assert_eq!(score.player2(), 1);
    score.reset();
    assert_eq!(score.player1(), 0);
    assert_eq!(score.player2(), 0);
}

#[test]
fn match_ends_exactly_at_the_threshold() {
    let mut score = Score::default();
    for _ in 0..MAX_SCORE - 1 {
        score.add_point(&ScoreField::Right);
    }
    assert!(!score.is_game_end());
    score.add_point(&ScoreField::Right);
    assert!(score.is_game_end());
}

#[test]
fn display_text_renders_both_counters() {
    let mut score = Score::default();
    assert_eq!(score.display_text(), "0 - 0");
    score.add_point(&ScoreField::Right);
    assert_eq!(score.display_text(), "1 - 0");
    for _ in 0..11 {
        score.add_point(&ScoreField::Right);
    }
    score.add_point(&ScoreField::Left);
    assert_eq!(score.display_text(), "12 - 1");
}

#[test]
fn winner_is_the_side_that_reached_the_threshold() {
    let mut score = Score::default();
    for _ in 0..MAX_SCORE {
        score.add_point(&ScoreField::Right);
    }
    assert_eq!(score.get_winner(), "Player 1");

    let mut score2 = Score::default();
    for _ in 0..MAX_SCORE {
        score2.add_point(&ScoreField::Left);
    }
    assert_eq!(score2.get_winner(), "Player 2");
}

#[test]
fn only_sensor_flagged_goal_contacts_qualify() {
    let session = test_session();
    let left = find_sensor(&session, ScoreField::Left);
    let right = find_sensor(&session, ScoreField::Right);
    let ball = 6;  // neither a sensor nor a paddle lookup below cares

    let events = vec![
        CollisionEvent::Started(ball, right, true),   // qualifies
        CollisionEvent::Started(ball, right, false),  // no sensor flag
        CollisionEvent::Stopped(ball, left, true),    // not a start
        CollisionEvent::Started(ball, 30, true),      // names no sensor
        CollisionEvent::Started(left, ball, true),    // qualifies, first wins
    ];
    let points = detect_point(&session, &events);
    assert_eq!(points.len(), 2);
    assert_eq!(points[0], OnPointScored(right));
    assert_eq!(points[1], OnPointScored(left));
}

#[test]
fn each_goal_credits_exactly_the_opposite_side() {
    let mut session = test_session();
    let left = find_sensor(&session, ScoreField::Left);
    let right = find_sensor(&session, ScoreField::Right);
    let mut score = Score::default();
    let mut machine = GameStateMachine::new();
    machine.request_transition(GameState::Playing);
    machine.apply_pending();

    // The ball reaching the right sensor scores for player 1, the left
    // sensor for player 2.
    let points = vec![OnPointScored(right), OnPointScored(right), OnPointScored(left)];
    process_point_events(&mut score, &mut session, &mut machine, &points);
    assert_eq!(score.player1(), 2);
    assert_eq!(score.player2(), 1);
    assert_eq!(machine.state(), GameState::Playing);

    // The points sum to the number of qualifying notifications.
    assert_eq!(score.player1() + score.player2(), points.len() as u32);
}

#[test]
fn goal_respawns_the_ball_at_the_center_with_the_serve_velocity() {
    let mut session = test_session();
    let right = find_sensor(&session, ScoreField::Right);

    // Disturb the ball first: a paddle reflection plus speed-ups.
    let ball_handle = session.ball_handle();
    let paddle_events = vec![CollisionEvent::Started(ball_handle, ball_handle, false)];
    pong::game::speed_up(&mut session, &paddle_events);
    assert!(session.ball().velocity.speed_sq() > 50000);

    let mut score = Score::default();
    let mut machine = GameStateMachine::new();
    let points = vec![OnPointScored(right)];
    process_point_events(&mut score, &mut session, &mut machine, &points);

    let ball = session.ball();
    assert_eq!(ball.x, 0);
    assert_eq!(ball.y, 0);
    assert_eq!(ball.velocity.vy(), 100);
    assert_eq!(ball.velocity.speed_sq(), 50000);
    assert!(ball.velocity.moving_right());
}

#[test]
fn threshold_point_requests_the_end_screen_on_the_same_step() {
    let mut session = test_session();
    let right = find_sensor(&session, ScoreField::Right);
    let mut score = Score::default();
    for _ in 0..MAX_SCORE - 1 {
        score.add_point(&ScoreField::Right);
    }
    let mut machine = GameStateMachine::new();
    machine.request_transition(GameState::Playing);
    machine.apply_pending();

    let points = vec![OnPointScored(right)];
    process_point_events(&mut score, &mut session, &mut machine, &points);
    assert!(score.is_game_end());
    // The transition is pending immediately, applied at the boundary.
    let _ = machine.apply_pending();
    assert_eq!(machine.state(), GameState::EndGame);
}

#[test]
fn short_of_the_threshold_no_transition_is_requested() {
    let mut session = test_session();
    let right = find_sensor(&session, ScoreField::Right);
    let mut score = Score::default();
    let mut machine = GameStateMachine::new();
    machine.request_transition(GameState::Playing);
    machine.apply_pending();

    let points = vec![OnPointScored(right)];
    process_point_events(&mut score, &mut session, &mut machine, &points);
    assert!(!score.is_game_end());
    let _ = machine.apply_pending();
    assert_eq!(machine.state(), GameState::Playing);
}
