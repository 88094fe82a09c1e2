//! The scoring engine.
//!
//! Each frame consumes the host physics engine's stream of contact events.
//! Only a sensor-flagged contact naming a goal sensor is a scoring event;
//! everything else is ignored. A qualifying contact raises exactly one
//! point-scored notification — the first matching entity wins, the pair is
//! never re-evaluated — and the notifications are drained in order, each
//! one incrementing the score, then respawning the ball, then checking for
//! match end, in that causal order: a point that reaches the threshold ends
//! the match on the same logical step.

use crate::score::{Score, ScoreField};
use crate::session::{spec_served_ball, Session};
use crate::states::{GameState, GameStateMachine};
use vstd::prelude::*;

verus! {

/// A contact report from the host physics engine: the two entity handles
/// and whether a trigger-only sensor was involved.
#[derive(Clone, Copy, Debug, PartialEq, Eq, Structural)]
pub enum CollisionEvent {
    Started(usize, usize, bool),
    Stopped(usize, usize, bool),
}

/// The point-scored notification, carrying the goal sensor that was hit.
#[derive(Clone, Copy, Debug, PartialEq, Eq, Structural)]
pub struct OnPointScored(pub usize);

/// Raised after a point was credited; triggers the match-end check.
#[derive(Clone, Copy, Debug, PartialEq, Eq, Structural)]
pub struct AfterPointScored;

/// The goal sensor a contact event names, if the event is a scoring event:
/// it must be a contact start, carry the sensor flag, and name a goal
/// sensor — the first of the two entities that matches wins.
pub open spec fn spec_scoring_sensor(s: Session, event: CollisionEvent) -> Option<usize> {
    match event {
        CollisionEvent::Started(entity1, entity2, sensor_flag) => {
            if !sensor_flag {
                None
            } else if s.spec_sensor_side(entity1 as int) is Some {
                Some(entity1)
            } else if s.spec_sensor_side(entity2 as int) is Some {
                Some(entity2)
            } else {
                None
            }
        },
        CollisionEvent::Stopped(_, _, _) => None,
    }
}

/// The point notifications a frame's contact stream produces, in order.
pub open spec fn spec_point_events(s: Session, events: Seq<CollisionEvent>) -> Seq<OnPointScored>
    decreases events.len(),
{
    if events.len() == 0 {
        Seq::empty()
    } else {
        spec_point_events(s, events.drop_last()) + match spec_scoring_sensor(s, events.last()) {
            Some(handle) => seq![OnPointScored(handle)],
            None => Seq::empty(),
        }
    }
}

/// Scan the frame's contact events for goals: one notification per
/// qualifying contact, in event order, and never more than one per contact
/// pair — the first matching entity ends the evaluation of its event.
pub fn detect_point(session: &Session, collision_events: &Vec<CollisionEvent>) -> (points: Vec<
    OnPointScored,
>)
    requires
        session.wf(),
    ensures
        points@ =~= spec_point_events(*session, collision_events@),
        points@.len() <= collision_events@.len(),
{
    let mut points: Vec<OnPointScored> = Vec::new();
    let n = collision_events.len();
    let mut i: usize = 0;
    while i < n
        invariant
            i <= n,
            n == collision_events@.len(),
            session.wf(),
            points@ =~= spec_point_events(*session, collision_events@.take(i as int)),
            points@.len() <= i,
        decreases n - i,
    {
        let event = collision_events[i];
        match event {
            CollisionEvent::Started(entity1, entity2, sensor_flag) => {
                if sensor_flag {
                    if session.sensor_side(entity1).is_some() {
                        points.push(OnPointScored(entity1));
                    } else if session.sensor_side(entity2).is_some() {
                        points.push(OnPointScored(entity2));
                    }
                }
            },
            CollisionEvent::Stopped(_, _, _) => {},
        }
        proof {
            assert(collision_events@.take(i + 1).drop_last() =~= collision_events@.take(i as int));
            assert(collision_events@.take(i + 1).last() == collision_events@[i as int]);
        }
        i = i + 1;
    }
    proof {
        assert(collision_events@.take(n as int) =~= collision_events@);
    }
    points
}

/// How many of the notifications credit the given sensor side.
pub open spec fn spec_side_hits(s: Session, points: Seq<OnPointScored>, side: ScoreField) -> nat
    decreases points.len(),
{
    if points.len() == 0 {
        0
    } else {
        spec_side_hits(s, points.drop_last(), side) + if s.spec_sensor_side(
            points.last().0 as int,
        ) == Some(side) {
            1nat
        } else {
            0nat
        }
    }
}

/// Credit one point-scored notification: if it names a goal sensor, the
/// side opposite that sensor gains exactly one point and the after-point
/// notification is raised; anything else changes nothing.
pub fn score_point(score: &mut Score, session: &Session, trigger: OnPointScored) -> (after: Option<
    AfterPointScored,
>)
    requires
        session.wf(),
        old(score).spec_player1() < u32::MAX,
        old(score).spec_player2() < u32::MAX,
    ensures
        match session.spec_sensor_side(trigger.0 as int) {
            Some(side) => {
                &&& after == Some(AfterPointScored)
                &&& (side == ScoreField::Right ==> final(score).spec_player1() == old(
                    score,
                ).spec_player1() + 1 && final(score).spec_player2() == old(score).spec_player2())
                &&& (side == ScoreField::Left ==> final(score).spec_player2() == old(
                    score,
                ).spec_player2() + 1 && final(score).spec_player1() == old(score).spec_player1())
            },
            None => after is None && *final(score) == *old(score),
        },
{
    match session.sensor_side(trigger.0) {
        Some(side) => {
            score.add_point(&side);
            Some(AfterPointScored)
        },
        None => None,
    }
}

/// The match-end check, run after each credited point: reaching the
/// threshold requests the transition to the end screen; short of it,
/// nothing is requested.
pub fn end_game(machine: &mut GameStateMachine, score: &Score, _after: AfterPointScored)
    ensures
        final(machine).spec_state() == old(machine).spec_state(),
        final(machine).spec_paused() == old(machine).spec_paused(),
        score.spec_game_end() ==> final(machine).spec_pending() == Some(GameState::EndGame),
        !score.spec_game_end() ==> final(machine).spec_pending() == old(machine).spec_pending(),
{
    if score.is_game_end() {
        machine.request_transition(GameState::EndGame);
    }
}

/// Drain the frame's point notifications in order. For each one that names
/// a goal sensor, three effects happen in causal order: the opposite side's
/// counter is incremented, the ball is despawned and respawned at the
/// arena center with the fixed serve velocity, and the match-end check
/// runs against the already-updated score.
///
/// Over the whole drain: each side gains exactly its number of qualifying
/// hits — so the two counters together grow by exactly the number of
/// qualifying notifications — the ball is back at the serve state if any
/// point was scored, and the end-screen transition is pending exactly when
/// a point was scored and the final score meets the threshold.
pub fn process_point_events(
    score: &mut Score,
    session: &mut Session,
    machine: &mut GameStateMachine,
    points: &Vec<OnPointScored>,
)
    requires
        old(session).wf(),
        old(score).spec_player1() + points@.len() < u32::MAX,
        old(score).spec_player2() + points@.len() < u32::MAX,
        old(session).spec_slots().len() + points@.len() < usize::MAX,
    ensures
        final(session).wf(),
        final(score).spec_player1() == old(score).spec_player1() + spec_side_hits(
            *old(session),
            points@,
            ScoreField::Right,
        ),
        final(score).spec_player2() == old(score).spec_player2() + spec_side_hits(
            *old(session),
            points@,
            ScoreField::Left,
        ),
        final(session).same_but_ball(*old(session)),
        forall|h: int| final(session).spec_sensor_side(h) == old(session).spec_sensor_side(h),
        spec_total_hits(*old(session), points@) == 0 ==> final(session).spec_ball() == old(
            session,
        ).spec_ball() && *final(score) == *old(score),
        spec_total_hits(*old(session), points@) > 0 ==> final(session).spec_ball()
            == spec_served_ball(),
        final(machine).spec_state() == old(machine).spec_state(),
        final(machine).spec_paused() == old(machine).spec_paused(),
        final(machine).spec_pending() == if spec_total_hits(*old(session), points@) > 0
            && final(score).spec_game_end() {
            Some(GameState::EndGame)
        } else {
            old(machine).spec_pending()
        },
{
    let n = points.len();
    let mut i: usize = 0;
    while i < n
        invariant
            i <= n,
            n == points@.len(),
            session.wf(),
            session.same_but_ball(*old(session)),
            forall|h: int| session.spec_sensor_side(h) == old(session).spec_sensor_side(h),
            session.spec_slots().len() <= old(session).spec_slots().len() + i,
            old(score).spec_player1() + points@.len() < u32::MAX,
            old(score).spec_player2() + points@.len() < u32::MAX,
            old(session).spec_slots().len() + points@.len() < usize::MAX,
            score.spec_player1() == old(score).spec_player1() + spec_side_hits(
                *old(session),
                points@.take(i as int),
                ScoreField::Right,
            ),
            score.spec_player2() == old(score).spec_player2() + spec_side_hits(
                *old(session),
                points@.take(i as int),
                ScoreField::Left,
            ),
            spec_total_hits(*old(session), points@.take(i as int)) == 0 ==> session.spec_ball()
                == old(session).spec_ball() && *score == *old(score),
            spec_total_hits(*old(session), points@.take(i as int)) > 0 ==> session.spec_ball()
                == spec_served_ball(),
            machine.spec_state() == old(machine).spec_state(),
            machine.spec_paused() == old(machine).spec_paused(),
            machine.spec_pending() == if spec_total_hits(*old(session), points@.take(i as int)) > 0
                && score.spec_game_end() {
                Some(GameState::EndGame)
            } else {
                old(machine).spec_pending()
            },
        decreases n - i,
    {
        proof {
            lemma_side_hits_bound(*old(session), points@.take(i as int), ScoreField::Right);
            lemma_side_hits_bound(*old(session), points@.take(i as int), ScoreField::Left);
            assert(points@.take(i + 1).drop_last() =~= points@.take(i as int));
            assert(points@.take(i + 1).last() == points@[i as int]);
        }
        let trigger = points[i];
        let after = score_point(score, session, trigger);
        if let Some(after_event) = after {
            session.reset_ball();
            end_game(machine, score, after_event);
        }
        i = i + 1;
    }
    proof {
        assert(points@.take(n as int) =~= points@);
    }
}

/// How many of the notifications credit either side.
pub open spec fn spec_total_hits(s: Session, points: Seq<OnPointScored>) -> nat {
    spec_side_hits(s, points, ScoreField::Left) + spec_side_hits(s, points, ScoreField::Right)
}

/// Each qualifying contact event credits exactly one side: over any frame,
/// the two counters together grow by exactly the number of qualifying
/// (sensor-flagged, goal-matching) contact events, one point each.
pub proof fn lemma_each_goal_credits_exactly_one_side(s: Session, events: Seq<CollisionEvent>)
    ensures
        spec_total_hits(s, spec_point_events(s, events)) == spec_point_events(s, events).len(),
    decreases events.len(),
{
    if events.len() == 0 {
        assert(spec_point_events(s, events) =~= Seq::<OnPointScored>::empty());
    } else {
        lemma_each_goal_credits_exactly_one_side(s, events.drop_last());
        let prev = spec_point_events(s, events.drop_last());
        let points = spec_point_events(s, events);
        match spec_scoring_sensor(s, events.last()) {
            Some(handle) => {
                assert(points =~= prev.push(OnPointScored(handle)));
                assert(points.drop_last() =~= prev);
                assert(s.spec_sensor_side(handle as int) is Some);
            },
            None => {
                assert(points =~= prev);
            },
        }
    }
}

/// A side is credited at most once per notification.
proof fn lemma_side_hits_bound(s: Session, points: Seq<OnPointScored>, side: ScoreField)
    ensures
        spec_side_hits(s, points, side) <= points.len(),
    decreases points.len(),
{
    if points.len() > 0 {
        lemma_side_hits_bound(s, points.drop_last(), side);
    }
}

} // verus!
