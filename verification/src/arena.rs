//! The entity store.
//!
//! Gameplay entities are tagged records held in an arena and addressed by
//! integer handles; "query the entities with tag X" becomes a lookup or a
//! filtered pass over the arena. Despawning is idempotent: a handle that was
//! already removed, or never existed, is simply skipped, because such
//! windows are expected during transition frames.

use crate::ball::BallVelocity;
use crate::score::ScoreField;
use crate::settings::PlayerType;
use vstd::prelude::*;

verus! {

/// A paddle: its center position, who drives it, and the goal it defends.
#[derive(Clone, Copy, Debug, PartialEq, Eq, Structural)]
pub struct Paddle {
    pub x: i64,
    pub y: i64,
    pub player: PlayerType,
    pub defends: ScoreField,
}

/// The ball: its center position and its velocity.
#[derive(Clone, Copy, Debug, PartialEq, Eq, Structural)]
pub struct Ball {
    pub x: i64,
    pub y: i64,
    pub velocity: BallVelocity,
}

/// A non-colliding trigger region on one side of the arena; the ball
/// touching it scores for the opposite player.
#[derive(Clone, Copy, Debug, PartialEq, Eq, Structural)]
pub struct GoalSensor {
    pub x: i64,
    pub y: i64,
    pub half_width: i64,
    pub half_height: i64,
    pub side: ScoreField,
}

/// A static wall: its center position and extent.
#[derive(Clone, Copy, Debug, PartialEq, Eq, Structural)]
pub struct Wall {
    pub x: i64,
    pub y: i64,
    pub width: i64,
    pub height: i64,
}

/// One gameplay entity.
#[derive(Clone, Copy, Debug, PartialEq, Eq, Structural)]
pub enum Entity {
    Paddle(Paddle),
    Ball(Ball),
    GoalSensor(GoalSensor),
    Wall(Wall),
}

/// The arena of entity slots. A slot holds `None` once its entity was
/// despawned; handles are never reused within a session.
#[derive(Clone, Debug)]
pub struct Arena {
    slots: Vec<Option<Entity>>,
}

impl Arena {
    /// The slots as a sequence, the arena's mathematical model.
    pub closed spec fn view(self) -> Seq<Option<Entity>> {
        self.slots@
    }

    pub fn new() -> (a: Arena)
        ensures
            a@ =~= Seq::<Option<Entity>>::empty(),
    {
        Arena { slots: Vec::new() }
    }

    pub fn len(&self) -> (n: usize)
        ensures
            n == self@.len(),
    {
        self.slots.len()
    }

    /// Add an entity; the new handle is the previous length.
    pub fn spawn(&mut self, entity: Entity) -> (handle: usize)
        requires
            old(self)@.len() < usize::MAX,
        ensures
            handle == old(self)@.len(),
            final(self)@ =~= old(self)@.push(Some(entity)),
    {
        let handle = self.slots.len();
        self.slots.push(Some(entity));
        handle
    }

    /// Remove the entity behind a handle. Removing a missing entity — a
    /// handle already despawned or out of range — changes nothing.
    pub fn despawn(&mut self, handle: usize)
        ensures
            handle < old(self)@.len() ==> final(self)@ =~= old(self)@.update(
                handle as int,
                None,
            ),
            handle >= old(self)@.len() ==> final(self)@ =~= old(self)@,
    {
        if handle < self.slots.len() {
            self.slots.set(handle, None);
        }
    }

    /// Look an entity up by handle.
    pub fn get(&self, handle: usize) -> (e: Option<Entity>)
        ensures
            handle < self@.len() ==> e == self@[handle as int],
            handle >= self@.len() ==> e is None,
    {
        if handle < self.slots.len() {
            self.slots[handle]
        } else {
            None
        }
    }

    /// The side of the goal sensor behind a handle, if that is what the
    /// handle points at. Paddles also carry the side they defend, but they
    /// are not sensors and never match here.
    pub fn sensor_side(&self, handle: usize) -> (r: Option<ScoreField>)
        ensures
            r == self.spec_sensor_side(handle as int),
    {
        if handle < self.slots.len() {
            match &self.slots[handle] {
                Some(Entity::GoalSensor(sensor)) => Some(sensor.side),
                _ => None,
            }
        } else {
            None
        }
    }

    /// The side of the sensor in a slot, if the slot holds one.
    pub open spec fn spec_sensor_side(self, handle: int) -> Option<ScoreField> {
        if 0 <= handle < self@.len() {
            match self@[handle] {
                Some(Entity::GoalSensor(sensor)) => Some(sensor.side),
                _ => None,
            }
        } else {
            None
        }
    }

    /// Replace the entity behind a live handle.
    pub fn set(&mut self, handle: usize, entity: Entity)
        requires
            handle < old(self)@.len(),
        ensures
            final(self)@ =~= old(self)@.update(handle as int, Some(entity)),
    {
        self.slots.set(handle, Some(entity));
    }

    /// Destroy every entity in one pass, leaving the slots empty; already
    /// missing entities are no trouble.
    pub fn despawn_all(&mut self)
        ensures
            final(self)@.len() == old(self)@.len(),
            forall|i: int| 0 <= i < final(self)@.len() ==> final(self)@[i] is None,
    {
        let n = self.slots.len();
        let mut i: usize = 0;
        while i < n
            invariant
                i <= n,
                n == self@.len(),
                forall|j: int| 0 <= j < i ==> self@[j] is None,
            decreases n - i,
        {
            self.slots.set(i, None);
            i = i + 1;
        }
    }
}

} // verus!
