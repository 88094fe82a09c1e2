use pong::ball::{isqrt, BallVelocity};
use pong::config::{INITIAL_SPEED_SQ, INITIAL_VELOCITY_Y, MAX_SPEED_SQ};

#[test]
fn serve_velocity_is_the_fixed_vector() {
    let v = BallVelocity::initial();
    assert_eq!(v.vy(), INITIAL_VELOCITY_Y);
    assert_eq!(v.speed_sq(), INITIAL_SPEED_SQ);
    assert_eq!(v.speed_sq(), 50000);
    assert!(v.moving_right());
}

#[test]
fn isqrt_exact_values() {
    assert_eq!(isqrt(0), 0);
    assert_eq!(isqrt(1), 1);
    assert_eq!(isqrt(3), 1);
    assert_eq!(isqrt(4), 2);
    assert_eq!(isqrt(50000), 223);
    assert_eq!(isqrt(1000000), 1000);
    assert_eq!(isqrt(2600000), 1612);
}

#[test]
fn speed_up_scales_the_vertical_component() {
    // From the serve: vy 100, squared speed 50000. Doubling vy adds
    // 3 * vy^2 = 30000 to the squared magnitude.
    let mut v = BallVelocity::initial();
    v.speed_up();
    assert_eq!(v.vy(), 200);
    assert_eq!(v.speed_sq(), 80000);
    assert!(v.moving_right());
}

#[test]
fn speed_up_clamps_at_the_maximum_speed() {
    // Three more speed-ups from 80000: 200000, 680000, then the scaled
    // squared speed 2600000 overshoots and the velocity is clamped to the
    // cap, the vertical component rescaled to 1600 * 1000 / 1612.
    let mut v = BallVelocity::initial();
    for _ in 0..3 {
        v.speed_up();
    }
    assert_eq!(v.speed_sq(), 680000);
    assert_eq!(v.vy(), 800);
    v.speed_up();
    assert_eq!(v.speed_sq(), MAX_SPEED_SQ);
    assert_eq!(v.speed_sq(), 1000000);
    assert_eq!(v.vy(), 992);
}

#[test]
fn speed_never_decreases_within_a_rally_and_converges_to_the_cap() {
    let mut v = BallVelocity::initial();
    let mut prior = v.speed_sq();
    for _ in 0..20 {
        v.speed_up();
        assert!(v.speed_sq() >= prior);
        prior = v.speed_sq();
    }
    // With a moving vertical component, enough contacts pin the speed to
    // exactly the maximum, where it stays.
    assert_eq!(v.speed_sq(), MAX_SPEED_SQ);
    v.speed_up();
    assert_eq!(v.speed_sq(), MAX_SPEED_SQ);
}

#[test]
fn purely_horizontal_velocity_holds_its_speed() {
    // A zero vertical component is unaffected by the speed-up rule: the
    // speed holds constant instead of converging to the cap.
    let mut v = BallVelocity::initial();
    v.paddle_reflect(0, 0);  // center hit: vy becomes 0
    assert_eq!(v.vy(), 0);
    let sq = v.speed_sq();
    v.speed_up();
    assert_eq!(v.vy(), 0);
    assert_eq!(v.speed_sq(), sq);
}

#[test]
fn reflection_preserves_the_speed_magnitude() {
    let mut v = BallVelocity::initial();
    let before = v.speed_sq();
    v.paddle_reflect(20, 0);
    assert_eq!(v.speed_sq(), before);
    assert!(!v.moving_right());
    // Normalized offset 20/50 of the current speed floor(sqrt(50000)) = 223.
    assert_eq!(v.vy(), 20 * 223 / 50);
    assert_eq!(v.vy(), 89);
}

#[test]
fn reflection_clamps_the_contact_offset() {
    // An offset past the paddle's half height acts like an edge hit.
    let mut v = BallVelocity::initial();
    v.paddle_reflect(300, 0);
    assert_eq!(v.vy(), 223);
    assert_eq!(v.speed_sq(), 50000);

    let mut w = BallVelocity::initial();
    w.paddle_reflect(0, 300);
    assert_eq!(w.vy(), -223);
    assert_eq!(w.speed_sq(), 50000);
}

#[test]
fn reflection_flips_back_and_forth() {
    let mut v = BallVelocity::initial();
    v.paddle_reflect(10, 0);
    assert!(!v.moving_right());
    v.paddle_reflect(-10, 0);
    assert!(v.moving_right());
    assert_eq!(v.speed_sq(), 50000);
}
