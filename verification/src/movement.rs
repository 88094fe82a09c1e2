//! The paddle motion rules.
//!
//! A human paddle moves at a fixed speed while exactly one of its two
//! direction actions is pressed — a level-sensitive query, so holding the
//! key sustains motion every tick — and stands still when both or neither
//! is pressed. A computer paddle tracks the ball's vertical position
//! proportionally, clamped to its difficulty's maximum speed, with no
//! prediction or smoothing. A move that would carry a paddle into a wall is
//! skipped.

use crate::arena::Paddle;
use crate::ball::clamp_spec;
use crate::config::{MAX_COORD, PADDLE_HALF_HEIGHT, PADDLE_SPEED, TOP_BUFFER, WALL_THICKNESS};
use crate::score::ScoreField;
use crate::session::{spec_bottom_wall_y, spec_top_wall_y, Session};
use crate::settings::{Difficulty, PlayerType};
use vstd::prelude::*;

verus! {

/// The pressed state of the game actions, as sampled by the host for one
/// tick.
#[derive(Clone, Copy, Debug, PartialEq, Eq, Structural)]
pub struct InputSnapshot {
    pub player1_up: bool,
    pub player1_down: bool,
    pub player2_up: bool,
    pub player2_down: bool,
    pub menu_just_pressed: bool,
}

/// The direction a human paddle moves: up and down cancel out, so it is
/// zero when both or neither of the side's direction actions is pressed,
/// and one step toward the single pressed direction otherwise.
pub open spec fn spec_input_direction(side: ScoreField, keys: InputSnapshot) -> int {
    match side {
        ScoreField::Left => (if keys.player1_up {
            1int
        } else {
            0int
        }) - (if keys.player1_down {
            1int
        } else {
            0int
        }),
        ScoreField::Right => (if keys.player2_up {
            1int
        } else {
            0int
        }) - (if keys.player2_down {
            1int
        } else {
            0int
        }),
    }
}

/// Executable form of [`spec_input_direction`].
pub fn get_input_direction(score_field: &ScoreField, keys: &InputSnapshot) -> (d: i64)
    ensures
        d == spec_input_direction(*score_field, *keys),
        -1 <= d <= 1,
{
    let mut direction: i64 = 0;
    match score_field {
        ScoreField::Left => {
            if keys.player1_up {
                direction = direction + 1;
            }
            if keys.player1_down {
                direction = direction - 1;
            }
        },
        ScoreField::Right => {
            if keys.player2_up {
                direction = direction + 1;
            }
            if keys.player2_down {
                direction = direction - 1;
            }
        },
    }
    direction
}

/// The vertical translation of a computer paddle: the offset from paddle to
/// ball, clamped in magnitude to the difficulty's maximum speed — it always
/// points toward the ball.
pub open spec fn spec_computer_translation(ball_y: int, paddle_y: int, max_speed: int) -> int {
    clamp_spec(ball_y - paddle_y, -max_speed, max_speed)
}

/// Executable form of [`spec_computer_translation`]: proportional tracking,
/// clamped. The translation never exceeds the difficulty's speed, and it is
/// the full offset whenever the offset is within that speed.
pub fn computer_translation(ball_y: i64, paddle_y: i64, difficulty: Difficulty) -> (dy: i64)
    requires
        -MAX_COORD <= ball_y <= MAX_COORD,
        -MAX_COORD <= paddle_y <= MAX_COORD,
    ensures
        dy == spec_computer_translation(
            ball_y as int,
            paddle_y as int,
            difficulty.spec_speed() as int,
        ),
        -difficulty.spec_speed() <= dy <= difficulty.spec_speed(),
        ball_y >= paddle_y ==> dy >= 0,
        ball_y <= paddle_y ==> dy <= 0,
    {
    let max_speed = difficulty.speed();
    let diff = ball_y - paddle_y;
    if diff > max_speed {
        max_speed
    } else if diff < -max_speed {
        -max_speed
    } else {
        diff
    }
}

/// The vertical translation a paddle asks for this tick, by its driver.
pub open spec fn spec_paddle_translation(
    paddle: Paddle,
    ball_y: int,
    keys: InputSnapshot,
) -> int {
    match paddle.player {
        PlayerType::Human => spec_input_direction(paddle.defends, keys) * PADDLE_SPEED,
        PlayerType::Computer(difficulty) => spec_computer_translation(
            ball_y,
            paddle.y as int,
            difficulty.spec_speed() as int,
        ),
    }
}

/// The highest paddle center that keeps the paddle clear of the top wall.
pub open spec fn spec_paddle_max_y(height: int) -> int {
    spec_top_wall_y(height) - WALL_THICKNESS / 2 - PADDLE_HALF_HEIGHT
}

/// The lowest paddle center that keeps the paddle clear of the bottom wall.
pub open spec fn spec_paddle_min_y(height: int) -> int {
    spec_bottom_wall_y(height) + WALL_THICKNESS / 2 + PADDLE_HALF_HEIGHT
}

/// Where a paddle ends up after asking to move by `dy`: at the target, or
/// unmoved if the target would overlap a wall.
pub open spec fn spec_moved_paddle_y(y: int, dy: int, min_y: int, max_y: int) -> int {
    if min_y <= y + dy <= max_y {
        y + dy
    } else {
        y
    }
}

/// The vertical position the paddle of a side takes this tick: its driver's
/// requested translation, applied unless a wall is in the way.
pub open spec fn spec_next_paddle_y(s: Session, side: ScoreField, keys: InputSnapshot) -> int {
    let p = s.spec_paddle(side);
    spec_moved_paddle_y(
        p.y as int,
        spec_paddle_translation(p, s.spec_ball().y as int, keys),
        spec_paddle_min_y(s.spec_height() as int),
        spec_paddle_max_y(s.spec_height() as int),
    )
}

/// Move one paddle by its rule.
fn move_one_paddle(session: &mut Session, side: ScoreField, keys: &InputSnapshot)
    requires
        old(session).wf(),
    ensures
        final(session).wf(),
        final(session).spec_paddle(side) == (Paddle {
            y: spec_next_paddle_y(*old(session), side, *keys) as i64,
            ..old(session).spec_paddle(side)
        }),
        side == ScoreField::Left ==> final(session).spec_paddle(ScoreField::Right) == old(
            session,
        ).spec_paddle(ScoreField::Right),
        side == ScoreField::Right ==> final(session).spec_paddle(ScoreField::Left) == old(
            session,
        ).spec_paddle(ScoreField::Left),
        final(session).spec_ball() == old(session).spec_ball(),
        final(session).spec_ball_handle() == old(session).spec_ball_handle(),
        final(session).spec_sensor(ScoreField::Left) == old(session).spec_sensor(ScoreField::Left),
        final(session).spec_sensor(ScoreField::Right) == old(session).spec_sensor(
            ScoreField::Right,
        ),
        final(session).spec_sensor_handle(ScoreField::Left) == old(session).spec_sensor_handle(
            ScoreField::Left,
        ),
        final(session).spec_sensor_handle(ScoreField::Right) == old(session).spec_sensor_handle(
            ScoreField::Right,
        ),
        final(session).spec_paddle_handle(ScoreField::Left) == old(session).spec_paddle_handle(
            ScoreField::Left,
        ),
        final(session).spec_paddle_handle(ScoreField::Right) == old(session).spec_paddle_handle(
            ScoreField::Right,
        ),
        final(session).spec_width() == old(session).spec_width(),
        final(session).spec_height() == old(session).spec_height(),
        forall|h: int| final(session).spec_sensor_side(h) == old(session).spec_sensor_side(h),
        final(session).spec_slots().len() == old(session).spec_slots().len(),
{
    let paddle = session.paddle(side);
    let ball = session.ball();
    let dy = match paddle.player {
        PlayerType::Human => {
            let direction = get_input_direction(&side, keys);
            direction * PADDLE_SPEED
        },
        PlayerType::Computer(difficulty) => computer_translation(ball.y, paddle.y, difficulty),
    };
    let height = session.height();
    let max_y = height / 2 - WALL_THICKNESS - TOP_BUFFER - WALL_THICKNESS / 2 - PADDLE_HALF_HEIGHT;
    let min_y = -(height / 2) + WALL_THICKNESS + WALL_THICKNESS / 2 + PADDLE_HALF_HEIGHT;
    let target = paddle.y + dy;
    let new_y = if min_y <= target && target <= max_y {
        target
    } else {
        paddle.y
    };
    session.set_paddle_y(side, new_y);
}

/// One motion tick: each paddle moves by its own driver's rule — human
/// input for a human slot, proportional tracking for a computer slot — and
/// everything else stays as it was.
pub fn move_players(session: &mut Session, keys: &InputSnapshot)
    requires
        old(session).wf(),
    ensures
        final(session).wf(),
        final(session).spec_paddle(ScoreField::Left) == (Paddle {
            y: spec_next_paddle_y(*old(session), ScoreField::Left, *keys) as i64,
            ..old(session).spec_paddle(ScoreField::Left)
        }),
        final(session).spec_paddle(ScoreField::Right) == (Paddle {
            y: spec_next_paddle_y(*old(session), ScoreField::Right, *keys) as i64,
            ..old(session).spec_paddle(ScoreField::Right)
        }),
        final(session).spec_ball() == old(session).spec_ball(),
        final(session).spec_ball_handle() == old(session).spec_ball_handle(),
        final(session).spec_sensor(ScoreField::Left) == old(session).spec_sensor(ScoreField::Left),
        final(session).spec_sensor(ScoreField::Right) == old(session).spec_sensor(
            ScoreField::Right,
        ),
        final(session).spec_sensor_handle(ScoreField::Left) == old(session).spec_sensor_handle(
            ScoreField::Left,
        ),
        final(session).spec_sensor_handle(ScoreField::Right) == old(session).spec_sensor_handle(
            ScoreField::Right,
        ),
        final(session).spec_width() == old(session).spec_width(),
        final(session).spec_height() == old(session).spec_height(),
        forall|h: int| final(session).spec_sensor_side(h) == old(session).spec_sensor_side(h),
        final(session).spec_slots().len() == old(session).spec_slots().len(),
{
    move_one_paddle(session, ScoreField::Left, keys);
    move_one_paddle(session, ScoreField::Right, keys);
}

} // verus!
