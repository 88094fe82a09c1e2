//! The session lifecycle.
//!
//! A session is the live set of entities — two walls, two goal sensors, two
//! paddles and one ball — that exists only while the game is in the
//! `Playing` state. Setup computes every placement as a pure function of the
//! viewport size and the player settings, symmetric about the vertical
//! center line; teardown destroys all of it in one pass.

use crate::arena::{Arena, Ball, Entity, GoalSensor, Paddle, Wall};
use crate::ball::BallVelocity;
use crate::config::{MAX_COORD, PADDLE_BUFFER, TOP_BUFFER, WALL_THICKNESS};
use crate::score::ScoreField;
use crate::settings::{GameSettings, PlayerType};
use vstd::prelude::*;

verus! {

/// The largest viewport edge the core accepts; far beyond any real screen.
pub const MAX_VIEWPORT: i64 = 100000;

/// The vertical center of the play field: the screen center shifted down to
/// leave room for the status bar.
pub open spec fn spec_field_center_y() -> int {
    -(TOP_BUFFER as int) / 2
}

/// The y position of the top wall.
pub open spec fn spec_top_wall_y(height: int) -> int {
    height / 2 - WALL_THICKNESS - TOP_BUFFER
}

/// The y position of the bottom wall.
pub open spec fn spec_bottom_wall_y(height: int) -> int {
    -(height / 2) + WALL_THICKNESS
}

/// The height of the goal sensors: the screen minus the status bar and one
/// wall.
pub open spec fn spec_sensor_height(height: int) -> int {
    height - TOP_BUFFER - WALL_THICKNESS
}

/// Half the sensor height, rounded toward zero; negative only for a
/// viewport too small to hold the fixed chrome.
pub open spec fn spec_sensor_half_height(height: int) -> int {
    let d = spec_sensor_height(height);
    if d >= 0 {
        d / 2
    } else {
        -((-d) / 2)
    }
}

/// The x position of a goal sensor: just inside its vertical screen edge.
pub open spec fn spec_sensor_x(width: int, side: ScoreField) -> int {
    match side {
        ScoreField::Left => -(width / 2) + WALL_THICKNESS,
        ScoreField::Right => width / 2 - WALL_THICKNESS,
    }
}

/// The x position of a paddle: a fixed offset in from its vertical screen
/// edge.
pub open spec fn spec_paddle_x(width: int, side: ScoreField) -> int {
    match side {
        ScoreField::Left => -(width / 2) + PADDLE_BUFFER,
        ScoreField::Right => width / 2 - PADDLE_BUFFER,
    }
}

/// The paddle a fresh session gives a side.
pub open spec fn spec_initial_paddle(
    settings: GameSettings,
    width: int,
    side: ScoreField,
) -> Paddle {
    Paddle {
        x: spec_paddle_x(width, side) as i64,
        y: spec_field_center_y() as i64,
        player: if side == ScoreField::Left {
            settings.spec_player1()
        } else {
            settings.spec_player2()
        },
        defends: side,
    }
}

/// The goal sensor a fresh session gives a side.
pub open spec fn spec_initial_sensor(width: int, height: int, side: ScoreField) -> GoalSensor {
    GoalSensor {
        x: spec_sensor_x(width, side) as i64,
        y: spec_field_center_y() as i64,
        half_width: WALL_THICKNESS,
        half_height: spec_sensor_half_height(height) as i64,
        side,
    }
}

/// The ball as every serve places it: at the arena center, with the fixed
/// serve velocity.
pub open spec fn spec_served_ball() -> Ball {
    Ball { x: 0, y: 0, velocity: BallVelocity::spec_initial() }
}

/// The live entity set of one match.
pub struct Session {
    arena: Arena,
    ball: usize,
    paddle_left: usize,
    paddle_right: usize,
    sensor_left: usize,
    sensor_right: usize,
    wall_top: usize,
    wall_bottom: usize,
    width: i64,
    height: i64,
}

impl Session {
    /// The entity slots of the session's arena.
    pub closed spec fn spec_slots(self) -> Seq<Option<Entity>> {
        self.arena@
    }

    pub closed spec fn spec_ball_handle(self) -> usize {
        self.ball
    }

    pub closed spec fn spec_paddle_handle(self, side: ScoreField) -> usize {
        match side {
            ScoreField::Left => self.paddle_left,
            ScoreField::Right => self.paddle_right,
        }
    }

    pub closed spec fn spec_sensor_handle(self, side: ScoreField) -> usize {
        match side {
            ScoreField::Left => self.sensor_left,
            ScoreField::Right => self.sensor_right,
        }
    }

    pub closed spec fn spec_wall_handle(self, top: bool) -> usize {
        if top {
            self.wall_top
        } else {
            self.wall_bottom
        }
    }

    pub closed spec fn spec_width(self) -> i64 {
        self.width
    }

    pub closed spec fn spec_height(self) -> i64 {
        self.height
    }

    /// The one ball of the session.
    pub open spec fn spec_ball(self) -> Ball {
        match self.spec_slots()[self.spec_ball_handle() as int] {
            Some(Entity::Ball(b)) => b,
            _ => spec_served_ball(),
        }
    }

    /// The paddle defending the given side.
    pub open spec fn spec_paddle(self, side: ScoreField) -> Paddle {
        match self.spec_slots()[self.spec_paddle_handle(side) as int] {
            Some(Entity::Paddle(p)) => p,
            _ => Paddle { x: 0, y: 0, player: PlayerType::Human, defends: side },
        }
    }

    /// The goal sensor on the given side.
    pub open spec fn spec_sensor(self, side: ScoreField) -> GoalSensor {
        match self.spec_slots()[self.spec_sensor_handle(side) as int] {
            Some(Entity::GoalSensor(g)) => g,
            _ => GoalSensor { x: 0, y: 0, half_width: 0, half_height: 0, side },
        }
    }

    /// The wall at the top or the bottom of the play field.
    pub open spec fn spec_wall(self, top: bool) -> Wall {
        match self.spec_slots()[self.spec_wall_handle(top) as int] {
            Some(Entity::Wall(w)) => w,
            _ => Wall { x: 0, y: 0, width: 0, height: 0 },
        }
    }

    /// The handle for the top or bottom wall points at a live wall.
    pub open spec fn wf_wall(self, top: bool) -> bool {
        let h = self.spec_wall_handle(top);
        &&& h < self.spec_slots().len()
        &&& self.spec_slots()[h as int] == Some(Entity::Wall(self.spec_wall(top)))
    }

    /// The handle for one side points at a live paddle of that side, in
    /// range.
    pub open spec fn wf_paddle(self, side: ScoreField) -> bool {
        let h = self.spec_paddle_handle(side);
        &&& h < self.spec_slots().len()
        &&& self.spec_slots()[h as int] == Some(Entity::Paddle(self.spec_paddle(side)))
        &&& self.spec_paddle(side).defends == side
        &&& -MAX_COORD <= self.spec_paddle(side).x <= MAX_COORD
        &&& -MAX_COORD <= self.spec_paddle(side).y <= MAX_COORD
    }

    /// The handle for one side points at a live goal sensor of that side.
    pub open spec fn wf_sensor(self, side: ScoreField) -> bool {
        let h = self.spec_sensor_handle(side);
        &&& h < self.spec_slots().len()
        &&& self.spec_slots()[h as int] == Some(Entity::GoalSensor(self.spec_sensor(side)))
        &&& self.spec_sensor(side).side == side
    }

    /// Session well-formedness: the named handles point at live entities of
    /// the right kind — exactly one ball, two paddles and two goal sensors,
    /// one per side — and every position and velocity is in range.
    pub open spec fn wf(self) -> bool {
        let slots = self.spec_slots();
        &&& self.spec_ball_handle() < slots.len()
        &&& slots[self.spec_ball_handle() as int] == Some(Entity::Ball(self.spec_ball()))
        &&& -MAX_COORD <= self.spec_ball().x <= MAX_COORD
        &&& -MAX_COORD <= self.spec_ball().y <= MAX_COORD
        &&& self.spec_ball().velocity.wf()
        &&& self.wf_paddle(ScoreField::Left)
        &&& self.wf_paddle(ScoreField::Right)
        &&& self.wf_sensor(ScoreField::Left)
        &&& self.wf_sensor(ScoreField::Right)
        &&& self.wf_wall(true)
        &&& self.wf_wall(false)
        &&& (forall|i: int|
            0 <= i < slots.len() ==> ((#[trigger] slots[i]) matches Some(Entity::Ball(_)) ==> i
                == self.spec_ball_handle()))
        &&& (forall|i: int|
            0 <= i < slots.len() ==> ((#[trigger] slots[i]) matches Some(Entity::GoalSensor(g))
                ==> i == self.spec_sensor_handle(g.side)))
        &&& 0 <= self.spec_width() <= MAX_VIEWPORT
        &&& 0 <= self.spec_height() <= MAX_VIEWPORT
    }

    /// Everything but the ball's slot is the same in both sessions.
    pub open spec fn same_but_ball(self, other: Session) -> bool {
        &&& self.spec_paddle(ScoreField::Left) == other.spec_paddle(ScoreField::Left)
        &&& self.spec_paddle(ScoreField::Right) == other.spec_paddle(ScoreField::Right)
        &&& self.spec_sensor(ScoreField::Left) == other.spec_sensor(ScoreField::Left)
        &&& self.spec_sensor(ScoreField::Right) == other.spec_sensor(ScoreField::Right)
        &&& self.spec_paddle_handle(ScoreField::Left) == other.spec_paddle_handle(ScoreField::Left)
        &&& self.spec_paddle_handle(ScoreField::Right) == other.spec_paddle_handle(
            ScoreField::Right,
        )
        &&& self.spec_sensor_handle(ScoreField::Left) == other.spec_sensor_handle(ScoreField::Left)
        &&& self.spec_sensor_handle(ScoreField::Right) == other.spec_sensor_handle(
            ScoreField::Right,
        )
        &&& self.spec_wall(true) == other.spec_wall(true)
        &&& self.spec_wall(false) == other.spec_wall(false)
        &&& self.spec_wall_handle(true) == other.spec_wall_handle(true)
        &&& self.spec_wall_handle(false) == other.spec_wall_handle(false)
        &&& self.spec_width() == other.spec_width()
        &&& self.spec_height() == other.spec_height()
    }

    /// Build the session for one match: walls and sensors placed symmetric
    /// about the vertical center line as a pure function of the viewport
    /// size, the paddles at fixed offsets from their screen edges carrying
    /// their player type and defended side, the ball at the arena center
    /// with the fixed serve velocity.
    pub fn setup_game(settings: &GameSettings, width: i64, height: i64) -> (s: Session)
        requires
            0 <= width <= MAX_VIEWPORT,
            0 <= height <= MAX_VIEWPORT,
        ensures
            s.wf(),
            s.spec_width() == width,
            s.spec_height() == height,
            s.spec_ball() == spec_served_ball(),
            s.spec_paddle(ScoreField::Left) == spec_initial_paddle(
                *settings,
                width as int,
                ScoreField::Left,
            ),
            s.spec_paddle(ScoreField::Right) == spec_initial_paddle(
                *settings,
                width as int,
                ScoreField::Right,
            ),
            s.spec_sensor(ScoreField::Left) == spec_initial_sensor(
                width as int,
                height as int,
                ScoreField::Left,
            ),
            s.spec_sensor(ScoreField::Right) == spec_initial_sensor(
                width as int,
                height as int,
                ScoreField::Right,
            ),
            s.spec_wall(true) == (Wall {
                x: 0,
                y: spec_top_wall_y(height as int) as i64,
                width,
                height: WALL_THICKNESS,
            }),
            s.spec_wall(false) == (Wall {
                x: 0,
                y: spec_bottom_wall_y(height as int) as i64,
                width,
                height: WALL_THICKNESS,
            }),
    {
        let mut arena = Arena::new();
        let top_y = height / 2 - WALL_THICKNESS - TOP_BUFFER;
        let bottom_y = -(height / 2) + WALL_THICKNESS;
        let center_y = -TOP_BUFFER / 2;
        let diff = height - TOP_BUFFER - WALL_THICKNESS;
        let sensor_half_height = if diff >= 0 {
            diff / 2
        } else {
            -((-diff) / 2)
        };
        let wall_top = arena.spawn(
            Entity::Wall(Wall { x: 0, y: top_y, width, height: WALL_THICKNESS }),
        );
        let wall_bottom = arena.spawn(
            Entity::Wall(Wall { x: 0, y: bottom_y, width, height: WALL_THICKNESS }),
        );
        let sensor_left = arena.spawn(
            Entity::GoalSensor(
                GoalSensor {
                    x: -(width / 2) + WALL_THICKNESS,
                    y: center_y,
                    half_width: WALL_THICKNESS,
                    half_height: sensor_half_height,
                    side: ScoreField::Left,
                },
            ),
        );
        let sensor_right = arena.spawn(
            Entity::GoalSensor(
                GoalSensor {
                    x: width / 2 - WALL_THICKNESS,
                    y: center_y,
                    half_width: WALL_THICKNESS,
                    half_height: sensor_half_height,
                    side: ScoreField::Right,
                },
            ),
        );
        let paddle_left = arena.spawn(
            Entity::Paddle(
                Paddle {
                    x: -(width / 2) + PADDLE_BUFFER,
                    y: center_y,
                    player: *settings.get_player1(),
                    defends: ScoreField::Left,
                },
            ),
        );
        let paddle_right = arena.spawn(
            Entity::Paddle(
                Paddle {
                    x: width / 2 - PADDLE_BUFFER,
                    y: center_y,
                    player: *settings.get_player2(),
                    defends: ScoreField::Right,
                },
            ),
        );
        let ball = arena.spawn(
            Entity::Ball(Ball { x: 0, y: 0, velocity: BallVelocity::initial() }),
        );
        Session {
            arena,
            ball,
            paddle_left,
            paddle_right,
            sensor_left,
            sensor_right,
            wall_top,
            wall_bottom,
            width,
            height,
        }
    }

    pub fn width(&self) -> (w: i64)
        ensures
            w == self.spec_width(),
    {
        self.width
    }

    pub fn height(&self) -> (h: i64)
        ensures
            h == self.spec_height(),
    {
        self.height
    }

    /// The handle of the session's one ball entity.
    pub fn ball_handle(&self) -> (h: usize)
        ensures
            h == self.spec_ball_handle(),
    {
        self.ball
    }

    /// The current ball, by value.
    pub fn ball(&self) -> (b: Ball)
        requires
            self.wf(),
        ensures
            b == self.spec_ball(),
    {
        match self.arena.get(self.ball) {
            Some(Entity::Ball(b)) => b,
            _ => Ball { x: 0, y: 0, velocity: BallVelocity::initial() },
        }
    }

    /// The paddle defending a side, by value.
    pub fn paddle(&self, side: ScoreField) -> (p: Paddle)
        requires
            self.wf(),
        ensures
            p == self.spec_paddle(side),
    {
        let handle = match side {
            ScoreField::Left => self.paddle_left,
            ScoreField::Right => self.paddle_right,
        };
        match self.arena.get(handle) {
            Some(Entity::Paddle(p)) => p,
            _ => Paddle { x: 0, y: 0, player: PlayerType::Human, defends: side },
        }
    }

    /// Overwrite the ball's state.
    pub fn set_ball(&mut self, b: Ball)
        requires
            old(self).wf(),
            -MAX_COORD <= b.x <= MAX_COORD,
            -MAX_COORD <= b.y <= MAX_COORD,
            b.velocity.wf(),
        ensures
            final(self).wf(),
            final(self).spec_ball() == b,
            final(self).spec_ball_handle() == old(self).spec_ball_handle(),
            final(self).spec_slots().len() == old(self).spec_slots().len(),
            final(self).same_but_ball(*old(self)),
            forall|h: int| final(self).spec_sensor_side(h) == old(self).spec_sensor_side(h),
    {
        self.arena.set(self.ball, Entity::Ball(b));
    }

    /// Move the paddle defending a side to a new vertical position.
    pub fn set_paddle_y(&mut self, side: ScoreField, y: i64)
        requires
            old(self).wf(),
            -MAX_COORD <= y <= MAX_COORD,
        ensures
            final(self).wf(),
            final(self).spec_paddle(side) == (Paddle { y, ..old(self).spec_paddle(side) }),
            side == ScoreField::Left ==> final(self).spec_paddle(ScoreField::Right) == old(
                self,
            ).spec_paddle(ScoreField::Right),
            side == ScoreField::Right ==> final(self).spec_paddle(ScoreField::Left) == old(
                self,
            ).spec_paddle(ScoreField::Left),
            final(self).spec_ball() == old(self).spec_ball(),
            final(self).spec_ball_handle() == old(self).spec_ball_handle(),
            final(self).spec_sensor(ScoreField::Left) == old(self).spec_sensor(ScoreField::Left),
            final(self).spec_sensor(ScoreField::Right) == old(self).spec_sensor(ScoreField::Right),
            final(self).spec_paddle_handle(ScoreField::Left) == old(self).spec_paddle_handle(
                ScoreField::Left,
            ),
            final(self).spec_paddle_handle(ScoreField::Right) == old(self).spec_paddle_handle(
                ScoreField::Right,
            ),
            final(self).spec_sensor_handle(ScoreField::Left) == old(self).spec_sensor_handle(
                ScoreField::Left,
            ),
            final(self).spec_sensor_handle(ScoreField::Right) == old(self).spec_sensor_handle(
                ScoreField::Right,
            ),
            final(self).spec_width() == old(self).spec_width(),
            final(self).spec_height() == old(self).spec_height(),
            final(self).spec_slots().len() == old(self).spec_slots().len(),
            forall|h: int| final(self).spec_sensor_side(h) == old(self).spec_sensor_side(h),
    {
        let handle = match side {
            ScoreField::Left => self.paddle_left,
            ScoreField::Right => self.paddle_right,
        };
        let mut p = match self.arena.get(handle) {
            Some(Entity::Paddle(p)) => p,
            _ => Paddle { x: 0, y: 0, player: PlayerType::Human, defends: side },
        };
        p.y = y;
        self.arena.set(handle, Entity::Paddle(p));
    }

    /// The side of the goal sensor behind an entity handle, if any; used to
    /// decide whether a collision event names a goal.
    pub fn sensor_side(&self, handle: usize) -> (r: Option<ScoreField>)
        requires
            self.wf(),
        ensures
            r == self.spec_sensor_side(handle as int),
            r is Some ==> handle == self.spec_sensor_handle(r.unwrap()),
    {
        self.arena.sensor_side(handle)
    }

    /// The side of the sensor in a slot, if the slot holds one.
    pub open spec fn spec_sensor_side(self, handle: int) -> Option<ScoreField> {
        if 0 <= handle < self.spec_slots().len() {
            match self.spec_slots()[handle] {
                Some(Entity::GoalSensor(g)) => Some(g.side),
                _ => None,
            }
        } else {
            None
        }
    }

    /// The side whose paddle a handle points at, if it points at a paddle.
    pub open spec fn spec_paddle_side(self, handle: int) -> Option<ScoreField> {
        if handle == self.spec_paddle_handle(ScoreField::Left) {
            Some(ScoreField::Left)
        } else if handle == self.spec_paddle_handle(ScoreField::Right) {
            Some(ScoreField::Right)
        } else {
            None
        }
    }

    /// Whether an entity handle names one of the two paddles, and which
    /// side's; used to decide whether a contact event is a paddle contact.
    pub fn paddle_side(&self, handle: usize) -> (r: Option<ScoreField>)
        requires
            self.wf(),
        ensures
            r == self.spec_paddle_side(handle as int),
    {
        if handle == self.paddle_left {
            Some(ScoreField::Left)
        } else if handle == self.paddle_right {
            Some(ScoreField::Right)
        } else {
            None
        }
    }

    /// Despawn the ball and respawn it at the arena center with the fixed
    /// serve velocity — the same vector as at session setup, whichever side
    /// scored and however many speed-ups came before. Every other entity is
    /// untouched.
    pub fn reset_ball(&mut self)
        requires
            old(self).wf(),
            old(self).spec_slots().len() < usize::MAX,
        ensures
            final(self).wf(),
            final(self).spec_ball() == spec_served_ball(),
            final(self).spec_slots().len() == old(self).spec_slots().len() + 1,
            final(self).same_but_ball(*old(self)),
            forall|h: int| final(self).spec_sensor_side(h) == old(self).spec_sensor_side(h),
    {
        self.arena.despawn(self.ball);
        let ball = self.arena.spawn(
            Entity::Ball(Ball { x: 0, y: 0, velocity: BallVelocity::initial() }),
        );
        self.ball = ball;
    }

    /// Tear the session down: destroy every entity it owns in one pass. The
    /// session is consumed; the emptied arena is handed back.
    pub fn cleanup_game(self) -> (a: Arena)
        ensures
            forall|i: int| 0 <= i < a@.len() ==> a@[i] is None,
    {
        let mut arena = self.arena;
        arena.despawn_all();
        arena
    }
}

} // verus!
