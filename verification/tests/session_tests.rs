use pong::arena::{Arena, Ball, Entity, Wall};
use pong::ball::BallVelocity;
use pong::score::ScoreField;
use pong::session::Session;
use pong::settings::{Difficulty, GameSettings, PlayerType};

#[test]
fn setup_places_everything_from_the_viewport() {
    let settings = GameSettings::default();
    let session = Session::setup_game(&settings, 1200, 600);

    assert_eq!(session.width(), 1200);
    assert_eq!(session.height(), 600);

    // Ball at the arena center with the serve velocity.
    let ball = session.ball();
    assert_eq!((ball.x, ball.y), (0, 0));
    assert_eq!(ball.velocity.vy(), 100);
    assert_eq!(ball.velocity.speed_sq(), 50000);
    assert!(ball.velocity.moving_right());

    // Paddles at fixed offsets from their screen edges, vertically on the
    // field center (the screen center minus the status-bar buffer), each
    // carrying its player type and defended side.
    let left = session.paddle(ScoreField::Left);
    assert_eq!((left.x, left.y), (-560, -50));
    assert_eq!(left.player, PlayerType::Human);
    assert_eq!(left.defends, ScoreField::Left);
    let right = session.paddle(ScoreField::Right);
    assert_eq!((right.x, right.y), (560, -50));
    assert_eq!(right.player, PlayerType::Computer(Difficulty::Easy));
    assert_eq!(right.defends, ScoreField::Right);
}

#[test]
fn sensors_sit_symmetric_about_the_center_line() {
    let session = Session::setup_game(&GameSettings::default(), 1200, 600);
    let mut left_handle = None;
    let mut right_handle = None;
    for handle in 0..16 {
        match session.sensor_side(handle) {
            Some(ScoreField::Left) => left_handle = Some(handle),
            Some(ScoreField::Right) => right_handle = Some(handle),
            None => {},
        }
    }
    // Exactly one sensor per side.
    assert!(left_handle.is_some());
    assert!(right_handle.is_some());
    assert_ne!(left_handle, right_handle);
}

#[test]
fn paddles_carry_the_chosen_player_types() {
    let mut settings = GameSettings::default();
    settings.update_players(1, PlayerType::Computer(Difficulty::Impossible));
    settings.update_players(2, PlayerType::Human);
    let session = Session::setup_game(&settings, 800, 400);
    assert_eq!(
        session.paddle(ScoreField::Left).player,
        PlayerType::Computer(Difficulty::Impossible)
    );
    assert_eq!(session.paddle(ScoreField::Right).player, PlayerType::Human);
}

#[test]
fn reset_ball_serves_again_and_touches_nothing_else() {
    let mut session = Session::setup_game(&GameSettings::default(), 1200, 600);
    let left_before = session.paddle(ScoreField::Left);
    session.set_ball(Ball { x: 400, y: -80, velocity: BallVelocity::initial() });
    session.reset_ball();
    let ball = session.ball();
    assert_eq!((ball.x, ball.y), (0, 0));
    assert_eq!(ball.velocity.vy(), 100);
    assert_eq!(ball.velocity.speed_sq(), 50000);
    assert_eq!(session.paddle(ScoreField::Left), left_before);
}

#[test]
fn teardown_destroys_every_entity_in_one_pass() {
    let session = Session::setup_game(&GameSettings::default(), 1200, 600);
    let arena = session.cleanup_game();
    for handle in 0..arena.len() {
        assert!(arena.get(handle).is_none());
    }
}

#[test]
fn despawn_is_idempotent_on_missing_entities() {
    let mut arena = Arena::new();
    let handle = arena.spawn(Entity::Wall(Wall { x: 0, y: 0, width: 10, height: 10 }));
    assert!(arena.get(handle).is_some());
    arena.despawn(handle);
    assert!(arena.get(handle).is_none());
    // Removing it again, or removing a handle that never existed, is safe.
    arena.despawn(handle);
    arena.despawn(999);
    assert!(arena.get(handle).is_none());
    assert_eq!(arena.len(), 1);
}

#[test]
fn settings_slots_are_overwritten_independently() {
    let mut settings = GameSettings::default();
    assert_eq!(*settings.get_player1(), PlayerType::Human);
    assert_eq!(*settings.get_player2(), PlayerType::Computer(Difficulty::Easy));
    settings.update_players(2, PlayerType::Computer(Difficulty::Difficult));
    assert_eq!(*settings.get_player1(), PlayerType::Human);
    assert_eq!(*settings.get_player2(), PlayerType::Computer(Difficulty::Difficult));
}

#[test]
fn difficulty_speed_increases_strictly() {
    assert_eq!(Difficulty::Easy.speed(), 6);
    assert_eq!(Difficulty::Difficult.speed(), 12);
    assert_eq!(Difficulty::Impossible.speed(), 18);
    assert!(Difficulty::Easy.speed() < Difficulty::Difficult.speed());
    assert!(Difficulty::Difficult.speed() < Difficulty::Impossible.speed());
}
