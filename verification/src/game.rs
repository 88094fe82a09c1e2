//! The per-frame pipeline.
//!
//! The whole game lives in one context struct, and each frame is an
//! explicit, fixed-order pass over it: paddle motion, the ball-contact
//! rules, scoring, then — at the frame boundary — the application of any
//! pending state transition and the session teardown or setup it implies.
//! Gameplay stages run only under the `Playing`-and-unpaused gate, on the
//! fixed-timestep tick.

use crate::ball::BallVelocity;
use crate::controls::{ControlMap, ControlRemapping};
use crate::movement::{move_players, spec_next_paddle_y, InputSnapshot};
use crate::score::{Score, ScoreField};
use crate::scoring::{
    detect_point, process_point_events, spec_point_events, spec_side_hits, spec_total_hits,
    CollisionEvent,
};
use crate::session::{spec_served_ball, Session, MAX_VIEWPORT};
use crate::settings::GameSettings;
use crate::states::{
    check_gameplay_runs, gameplay_runs, GameState, GameStateMachine, PausedState,
    TransitionEffect,
};
use vstd::prelude::*;

verus! {

/// How many contact starts of a frame involve the ball entity: each one
/// triggers the speed-up rule.
pub open spec fn spec_ball_contact_count(ball: usize, events: Seq<CollisionEvent>) -> nat
    decreases events.len(),
{
    if events.len() == 0 {
        0
    } else {
        spec_ball_contact_count(ball, events.drop_last()) + match events.last() {
            CollisionEvent::Started(entity1, entity2, _) => if entity1 == ball || entity2 == ball {
                1nat
            } else {
                0nat
            },
            CollisionEvent::Stopped(_, _, _) => 0nat,
        }
    }
}

/// The paddle a contact start names, if it names one; the first of the two
/// entities that matches wins, as in the scoring scan.
pub open spec fn spec_paddle_hit(s: Session, event: CollisionEvent) -> Option<ScoreField> {
    match event {
        CollisionEvent::Started(entity1, entity2, _) => {
            if s.spec_paddle_side(entity1 as int) is Some {
                s.spec_paddle_side(entity1 as int)
            } else {
                s.spec_paddle_side(entity2 as int)
            }
        },
        CollisionEvent::Stopped(_, _, _) => None,
    }
}

/// The ball velocity after the frame's paddle reflections, applied in event
/// order: each paddle-naming contact start reflects the ball off that
/// paddle, at the given ball height. The session argument supplies only the
/// paddle handles and positions.
pub open spec fn spec_vel_after_reflections(
    s: Session,
    v: BallVelocity,
    ball_y: int,
    events: Seq<CollisionEvent>,
) -> BallVelocity
    decreases events.len(),
{
    if events.len() == 0 {
        v
    } else {
        let prev = spec_vel_after_reflections(s, v, ball_y, events.drop_last());
        match spec_paddle_hit(s, events.last()) {
            Some(side) => prev.spec_reflected(ball_y - s.spec_paddle(side).y),
            None => prev,
        }
    }
}

/// A frame's reflections, however many, leave the ball's speed exactly
/// where it was: only the direction changes.
pub proof fn lemma_frame_reflections_preserve_speed(
    s: Session,
    v: BallVelocity,
    ball_y: int,
    events: Seq<CollisionEvent>,
)
    ensures
        spec_vel_after_reflections(s, v, ball_y, events).spec_speed_sq() == v.spec_speed_sq(),
    decreases events.len(),
{
    if events.len() > 0 {
        lemma_frame_reflections_preserve_speed(s, v, ball_y, events.drop_last());
        let prev = spec_vel_after_reflections(s, v, ball_y, events.drop_last());
        match spec_paddle_hit(s, events.last()) {
            Some(side) => {
                prev.lemma_reflected_preserves_speed(ball_y - s.spec_paddle(side).y);
            },
            None => {},
        }
    }
}

/// Reflections read the session only through its paddles: two sessions that
/// agree on paddle handles and paddles see the same result.
pub proof fn lemma_reflections_stable(
    a: Session,
    b: Session,
    v: BallVelocity,
    ball_y: int,
    events: Seq<CollisionEvent>,
)
    requires
        a.spec_paddle_handle(ScoreField::Left) == b.spec_paddle_handle(ScoreField::Left),
        a.spec_paddle_handle(ScoreField::Right) == b.spec_paddle_handle(ScoreField::Right),
        a.spec_paddle(ScoreField::Left) == b.spec_paddle(ScoreField::Left),
        a.spec_paddle(ScoreField::Right) == b.spec_paddle(ScoreField::Right),
    ensures
        spec_vel_after_reflections(a, v, ball_y, events) == spec_vel_after_reflections(
            b,
            v,
            ball_y,
            events,
        ),
    decreases events.len(),
{
    if events.len() > 0 {
        lemma_reflections_stable(a, b, v, ball_y, events.drop_last());
        match spec_paddle_hit(a, events.last()) {
            Some(side) => {
                assert(a.spec_paddle(side) == b.spec_paddle(side));
            },
            None => {},
        }
    }
}

/// The point notifications depend on the session only through which
/// handles are goal sensors.
pub proof fn lemma_point_events_stable(a: Session, b: Session, events: Seq<CollisionEvent>)
    requires
        forall|h: int| a.spec_sensor_side(h) == b.spec_sensor_side(h),
    ensures
        spec_point_events(a, events) == spec_point_events(b, events),
    decreases events.len(),
{
    if events.len() > 0 {
        lemma_point_events_stable(a, b, events.drop_last());
    }
}

/// The per-side hit counts depend on the session only through which
/// handles are goal sensors.
pub proof fn lemma_side_hits_stable(
    a: Session,
    b: Session,
    points: Seq<crate::scoring::OnPointScored>,
    side: ScoreField,
)
    requires
        forall|h: int| a.spec_sensor_side(h) == b.spec_sensor_side(h),
    ensures
        spec_side_hits(a, points, side) == spec_side_hits(b, points, side),
    decreases points.len(),
{
    if points.len() > 0 {
        lemma_side_hits_stable(a, b, points.drop_last(), side);
    }
}

/// The contact speed-up pass: every contact start involving the ball speeds
/// it up once, in event order; nothing else in the session changes.
pub fn speed_up(session: &mut Session, collision_events: &Vec<CollisionEvent>)
    requires
        old(session).wf(),
    ensures
        final(session).wf(),
        final(session).spec_ball().velocity == old(session).spec_ball().velocity.spec_sped_up_n(
            spec_ball_contact_count(old(session).spec_ball_handle(), collision_events@),
        ),
        final(session).spec_ball().x == old(session).spec_ball().x,
        final(session).spec_ball().y == old(session).spec_ball().y,
        final(session).spec_ball_handle() == old(session).spec_ball_handle(),
        final(session).same_but_ball(*old(session)),
        final(session).spec_slots().len() == old(session).spec_slots().len(),
        forall|h: int| final(session).spec_sensor_side(h) == old(session).spec_sensor_side(h),
{
    let ball_handle = session.ball_handle();
    let mut ball = session.ball();
    let n = collision_events.len();
    let mut i: usize = 0;
    while i < n
        invariant
            i <= n,
            n == collision_events@.len(),
            session.wf(),
            ball_handle == session.spec_ball_handle(),
            ball.x == session.spec_ball().x,
            ball.y == session.spec_ball().y,
            ball.velocity.wf(),
            ball.velocity == session.spec_ball().velocity.spec_sped_up_n(
                spec_ball_contact_count(ball_handle, collision_events@.take(i as int)),
            ),
        decreases n - i,
    {
        proof {
            assert(collision_events@.take(i + 1).drop_last() =~= collision_events@.take(i as int));
            assert(collision_events@.take(i + 1).last() == collision_events@[i as int]);
        }
        match collision_events[i] {
            CollisionEvent::Started(entity1, entity2, _) => {
                if entity1 == ball_handle || entity2 == ball_handle {
                    ball.velocity.speed_up();
                }
            },
            CollisionEvent::Stopped(_, _, _) => {},
        }
        i = i + 1;
    }
    proof {
        assert(collision_events@.take(n as int) =~= collision_events@);
    }
    session.set_ball(ball);
}

/// The paddle reflection pass: every contact start naming a paddle
/// reflects the ball off that paddle — horizontal direction inverted,
/// vertical component recomputed from the contact offset, speed magnitude
/// exactly preserved. Nothing else in the session changes.
pub fn paddle_collision(session: &mut Session, collision_events: &Vec<CollisionEvent>)
    requires
        old(session).wf(),
    ensures
        final(session).wf(),
        final(session).spec_ball().velocity == spec_vel_after_reflections(
            *old(session),
            old(session).spec_ball().velocity,
            old(session).spec_ball().y as int,
            collision_events@,
        ),
        final(session).spec_ball().x == old(session).spec_ball().x,
        final(session).spec_ball().y == old(session).spec_ball().y,
        final(session).spec_ball_handle() == old(session).spec_ball_handle(),
        final(session).same_but_ball(*old(session)),
        final(session).spec_slots().len() == old(session).spec_slots().len(),
        forall|h: int| final(session).spec_sensor_side(h) == old(session).spec_sensor_side(h),
{
    let mut ball = session.ball();
    let n = collision_events.len();
    let mut i: usize = 0;
    while i < n
        invariant
            i <= n,
            n == collision_events@.len(),
            session.wf(),
            *session == *old(session),
            ball.x == session.spec_ball().x,
            ball.y == session.spec_ball().y,
            ball.velocity.wf(),
            ball.velocity == spec_vel_after_reflections(
                *session,
                session.spec_ball().velocity,
                ball.y as int,
                collision_events@.take(i as int),
            ),
        decreases n - i,
    {
        proof {
            assert(collision_events@.take(i + 1).drop_last() =~= collision_events@.take(i as int));
            assert(collision_events@.take(i + 1).last() == collision_events@[i as int]);
        }
        match collision_events[i] {
            CollisionEvent::Started(entity1, entity2, _) => {
                let hit = match session.paddle_side(entity1) {
                    Some(side) => Some(side),
                    None => session.paddle_side(entity2),
                };
                if let Some(side) = hit {
                    let paddle = session.paddle(side);
                    ball.velocity.paddle_reflect(ball.y, paddle.y);
                }
            },
            CollisionEvent::Stopped(_, _, _) => {},
        }
        i = i + 1;
    }
    proof {
        assert(collision_events@.take(n as int) =~= collision_events@);
    }
    session.set_ball(ball);
}


/// The pause-toggle input: while the game is `Playing` — paused or not — a
/// fresh menu-key press flips the pause sub-state; anywhere else, or
/// without a press, nothing happens.
pub fn toggle_pause_game(machine: &mut GameStateMachine, keys: &InputSnapshot)
    ensures
        final(machine).spec_state() == old(machine).spec_state(),
        final(machine).spec_pending() == old(machine).spec_pending(),
        keys.menu_just_pressed && old(machine).spec_state() == GameState::Playing ==> final(machine).spec_paused() == crate::states::flip(old(machine).spec_paused()),
        !(keys.menu_just_pressed && old(machine).spec_state() == GameState::Playing) ==> final(machine).spec_paused() == old(machine).spec_paused(),
{
    if keys.menu_just_pressed {
        machine.toggle_pause();
    }
}

/// The whole game as one explicit context: the state machine, the stores
/// the menus edit, the score, and the live session while one exists.
pub struct Game {
    pub machine: GameStateMachine,
    pub settings: GameSettings,
    pub controls: ControlMap,
    pub remapping: ControlRemapping,
    pub score: Score,
    pub session: Option<Session>,
}

impl Game {
    /// A live session exists only while the game is `Playing`, and is then
    /// well formed.
    pub open spec fn wf(self) -> bool {
        self.session matches Some(s) ==> {
            &&& s.wf()
            &&& self.machine.spec_state() == GameState::Playing
        }
    }

    /// A fresh game: main menu, default settings, stock key bindings, no
    /// remap in progress, zero score, no session.
    pub fn new() -> (g: Game)
        ensures
            g.wf(),
            g.machine.spec_state() == GameState::Main,
            g.machine.spec_paused() == PausedState::Unpaused,
            g.machine.spec_pending() is None,
            g.settings.spec_player1() == crate::settings::PlayerType::Human,
            g.settings.spec_player2() == crate::settings::PlayerType::Computer(
                crate::settings::Difficulty::Easy,
            ),
            g.score.spec_player1() == 0,
            g.score.spec_player2() == 0,
            g.remapping.spec_current_action() is None,
            !g.remapping.spec_is_listening(),
            g.session is None,
    {
        Game {
            machine: GameStateMachine::new(),
            settings: GameSettings::default(),
            controls: ControlMap::default_input_map(),
            remapping: ControlRemapping::default(),
            score: Score::default(),
            session: None,
        }
    }

    /// One gameplay tick on the fixed-timestep loop. While the game is
    /// playing and unpaused, and a live session exists, the stages run in
    /// their fixed causal order: paddle motion, the ball speed-up rule, the
    /// paddle reflections, and last the scoring pass. Paused, on a menu, or
    /// during the transition frames in which no session exists yet, nothing
    /// at all changes.
    pub fn fixed_update(&mut self, input: &InputSnapshot, collision_events: &Vec<CollisionEvent>)
        requires
            old(self).wf(),
            old(self).score.spec_player1() + collision_events@.len() < u32::MAX,
            old(self).score.spec_player2() + collision_events@.len() < u32::MAX,
            (old(self).session matches Some(s) ==> s.spec_slots().len() + collision_events@.len()
                < usize::MAX),
        ensures
            final(self).wf(),
            final(self).machine.spec_state() == old(self).machine.spec_state(),
            final(self).machine.spec_paused() == old(self).machine.spec_paused(),
            final(self).settings == old(self).settings,
            final(self).controls == old(self).controls,
            final(self).remapping == old(self).remapping,
            !(gameplay_runs(old(self).machine.spec_state(), old(self).machine.spec_paused())
                && old(self).session is Some) ==> *final(self) == *old(self),
            (gameplay_runs(old(self).machine.spec_state(), old(self).machine.spec_paused())
                && old(self).session is Some) ==> {
                let s0 = old(self).session.unwrap();
                let points = spec_point_events(s0, collision_events@);
                let hits = spec_total_hits(s0, points);
                let sf = final(self).session.unwrap();
                &&& final(self).session is Some
                &&& sf.wf()
                &&& sf.spec_paddle(ScoreField::Left) == (crate::arena::Paddle {
                    y: spec_next_paddle_y(s0, ScoreField::Left, *input) as i64,
                    ..s0.spec_paddle(ScoreField::Left)
                })
                &&& sf.spec_paddle(ScoreField::Right) == (crate::arena::Paddle {
                    y: spec_next_paddle_y(s0, ScoreField::Right, *input) as i64,
                    ..s0.spec_paddle(ScoreField::Right)
                })
                &&& sf.spec_sensor(ScoreField::Left) == s0.spec_sensor(ScoreField::Left)
                &&& sf.spec_sensor(ScoreField::Right) == s0.spec_sensor(ScoreField::Right)
                &&& sf.spec_width() == s0.spec_width()
                &&& sf.spec_height() == s0.spec_height()
                &&& (forall|h: int| sf.spec_sensor_side(h) == s0.spec_sensor_side(h))
                &&& final(self).score.spec_player1() == old(self).score.spec_player1()
                    + spec_side_hits(s0, points, ScoreField::Right)
                &&& final(self).score.spec_player2() == old(self).score.spec_player2()
                    + spec_side_hits(s0, points, ScoreField::Left)
                &&& final(self).machine.spec_pending() == (if hits > 0 && final(self).score.spec_game_end() {
                    Some(GameState::EndGame)
                } else {
                    old(self).machine.spec_pending()
                })
                &&& (hits > 0 ==> sf.spec_ball() == spec_served_ball())
                &&& (hits == 0 ==> {
                    &&& final(self).score == old(self).score
                    &&& sf.spec_ball().x == s0.spec_ball().x
                    &&& sf.spec_ball().y == s0.spec_ball().y
                    &&& sf.spec_ball().velocity.spec_speed_sq()
                        >= s0.spec_ball().velocity.spec_speed_sq()
                    &&& sf.spec_ball().velocity == spec_vel_after_reflections(
                        sf,
                        s0.spec_ball().velocity.spec_sped_up_n(
                            spec_ball_contact_count(s0.spec_ball_handle(), collision_events@),
                        ),
                        s0.spec_ball().y as int,
                        collision_events@,
                    )
                })
            },
    {
        let state = self.machine.state();
        let paused = self.machine.paused();
        if check_gameplay_runs(state, paused) {
            let ghost s0 = self.session.unwrap();
            match &mut self.session {
                None => {},
                Some(session) => {
                    move_players(session, input);
                    speed_up(session, collision_events);
                    let ghost v_sped = session.spec_ball().velocity;
                    let ghost s_mid = *session;
                    paddle_collision(session, collision_events);
                    let ghost s_det = *session;
                    let points = detect_point(session, collision_events);
                    process_point_events(&mut self.score, session, &mut self.machine, &points);
                    proof {
                        lemma_point_events_stable(s_det, s0, collision_events@);
                        lemma_side_hits_stable(s_det, s0, points@, ScoreField::Left);
                        lemma_side_hits_stable(s_det, s0, points@, ScoreField::Right);
                        lemma_reflections_stable(
                            s_mid,
                            *session,
                            v_sped,
                            s0.spec_ball().y as int,
                            collision_events@,
                        );
                        s0.spec_ball().velocity.lemma_sped_up_n_speed_monotone(
                            spec_ball_contact_count(s0.spec_ball_handle(), collision_events@),
                        );
                        lemma_frame_reflections_preserve_speed(
                            s_mid,
                            v_sped,
                            s0.spec_ball().y as int,
                            collision_events@,
                        );
                    }
                },
            }
        }
    }

    /// The variable-rate tick: the input handling that runs outside the
    /// fixed gameplay step. While the controls menu is open, pressed keys
    /// feed the remap listener; while the game is `Playing` — paused or not
    /// — a fresh menu-key press toggles the pause overlay. Under any other
    /// state this tick changes nothing.
    pub fn update_tick(&mut self, input: &InputSnapshot, keys_pressed: &Vec<u32>)
        requires
            old(self).wf(),
        ensures
            final(self).wf(),
            final(self).machine.spec_state() == old(self).machine.spec_state(),
            final(self).machine.spec_pending() == old(self).machine.spec_pending(),
            final(self).settings == old(self).settings,
            final(self).score == old(self).score,
            final(self).session == old(self).session,
            (if crate::states::pause_toggle_runs(old(self).machine.spec_state())
                && input.menu_just_pressed {
                final(self).machine.spec_paused() == crate::states::flip(
                    old(self).machine.spec_paused(),
                )
            } else {
                final(self).machine.spec_paused() == old(self).machine.spec_paused()
            }),
            crate::states::controls_menu_runs(old(self).machine.spec_state()) ==> {
                &&& (old(self).remapping.spec_active() && keys_pressed@.len() > 0 ==> {
                    &&& final(self).controls.spec_binding(
                        old(self).remapping.spec_current_action().unwrap(),
                    ) == Some(keys_pressed@.last())
                    &&& (forall|a: crate::controls::GameAction|
                        a != old(self).remapping.spec_current_action().unwrap() ==> final(self).controls.spec_binding(a) == old(self).controls.spec_binding(a))
                    &&& !final(self).remapping.spec_is_listening()
                })
                &&& (!(old(self).remapping.spec_active() && keys_pressed@.len() > 0) ==> final(self).controls == old(self).controls && final(self).remapping == old(self).remapping)
            },
            !crate::states::controls_menu_runs(old(self).machine.spec_state()) ==> final(self).controls == old(self).controls && final(self).remapping == old(self).remapping,
    {
        let state = self.machine.state();
        if state == GameState::Controls {
            crate::controls::listen_for_keys(&mut self.remapping, &mut self.controls, keys_pressed);
        }
        if state == GameState::Playing {
            toggle_pause_game(&mut self.machine, input);
        }
    }

    /// The frame boundary: apply the pending state transition, if any, and
    /// the session work it implies. Leaving `Playing` tears the session
    /// down unconditionally; in `Playing` without a session — freshly
    /// entered, or left over from a frame whose viewport was unavailable —
    /// the score is reset and the session is built from the viewport, or
    /// the whole setup is skipped until a viewport exists. Requesting the
    /// state the game is already in changes nothing.
    pub fn frame_boundary(&mut self, viewport: Option<(i64, i64)>)
        requires
            old(self).wf(),
            (viewport matches Some(v) ==> 0 <= v.0 <= MAX_VIEWPORT && 0 <= v.1 <= MAX_VIEWPORT),
        ensures
            final(self).wf(),
            final(self).machine.spec_pending() is None,
            final(self).settings == old(self).settings,
            final(self).controls == old(self).controls,
            final(self).remapping == old(self).remapping,
            final(self).machine.spec_state() == (match old(self).machine.spec_pending() {
                Some(target) => target,
                None => old(self).machine.spec_state(),
            }),
            old(self).machine.spec_pending() == Some(GameState::Playing) && old(self).machine.spec_state() != GameState::Playing ==> final(self).machine.spec_paused()
                == PausedState::Unpaused,
            final(self).machine.spec_state() != GameState::Playing ==> final(self).session is None,
            final(self).machine.spec_state() != GameState::Playing && old(self).machine.spec_state()
                != GameState::Playing ==> final(self).score == old(self).score,
            final(self).machine.spec_state() == GameState::Playing && old(self).session is Some
                && (old(self).machine.spec_pending() is None || old(self).machine.spec_pending()
                == Some(GameState::Playing)) ==> {
                &&& final(self).session == old(self).session
                &&& final(self).score == old(self).score
                &&& final(self).machine.spec_paused() == old(self).machine.spec_paused()
            },
            final(self).machine.spec_state() == GameState::Playing && old(self).session is None
                ==> (match viewport {
                Some(v) => {
                    let sf = final(self).session.unwrap();
                    &&& final(self).session is Some
                    &&& final(self).score.spec_player1() == 0
                    &&& final(self).score.spec_player2() == 0
                    &&& sf.wf()
                    &&& sf.spec_width() == v.0
                    &&& sf.spec_height() == v.1
                    &&& sf.spec_ball() == spec_served_ball()
                    &&& sf.spec_paddle(ScoreField::Left) == crate::session::spec_initial_paddle(
                        old(self).settings,
                        v.0 as int,
                        ScoreField::Left,
                    )
                    &&& sf.spec_paddle(ScoreField::Right) == crate::session::spec_initial_paddle(
                        old(self).settings,
                        v.0 as int,
                        ScoreField::Right,
                    )
                    &&& sf.spec_sensor(ScoreField::Left) == crate::session::spec_initial_sensor(
                        v.0 as int,
                        v.1 as int,
                        ScoreField::Left,
                    )
                    &&& sf.spec_sensor(ScoreField::Right) == crate::session::spec_initial_sensor(
                        v.0 as int,
                        v.1 as int,
                        ScoreField::Right,
                    )
                },
                None => final(self).session is None && final(self).score == old(self).score,
            }),
    {
        let effect = self.machine.apply_pending();
        if effect == TransitionEffect::ExitPlaying || effect == TransitionEffect::Changed {
            let stale = self.session.take();
            if let Some(session) = stale {
                let _ = session.cleanup_game();
            }
        }
        if self.machine.state() == GameState::Playing && self.session.is_none() {
            if let Some((width, height)) = viewport {
                self.score.reset();
                self.session = Some(Session::setup_game(&self.settings, width, height));
            }
        }
    }
}

} // verus!
