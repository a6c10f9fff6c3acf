use vstd::prelude::*;

verus! {

/// Which way an entity is facing or moving.
#[derive(Clone, Copy, Debug, PartialEq, Eq, Structural)]
pub enum MoveDirection {
    Right,
    Left,
}

impl MoveDirection {
    pub fn is_right(&self) -> (r: bool)
        ensures
            r == (*self == MoveDirection::Right),
    {
        match *self {
            MoveDirection::Right => true,
            MoveDirection::Left => false,
        }
    }

    pub fn is_left(&self) -> (r: bool)
        ensures
            r == (*self == MoveDirection::Left),
    {
        match *self {
            MoveDirection::Right => false,
            MoveDirection::Left => true,
        }
    }

    /// The opposite direction.
    pub open spec fn spec_flip(self) -> MoveDirection {
        match self {
            MoveDirection::Right => MoveDirection::Left,
            MoveDirection::Left => MoveDirection::Right,
        }
    }

    /// The opposite direction.
    pub fn flip(&self) -> (r: MoveDirection)
        ensures
            r == self.spec_flip(),
    {
        match *self {
            MoveDirection::Right => MoveDirection::Left,
            MoveDirection::Left => MoveDirection::Right,
        }
    }
}

/// Entity Controller, can be Player or AI driven.
#[derive(Clone, Copy, Debug, PartialEq, Eq, Structural)]
pub struct Controller {
    /// Suppresses all input-driven behaviour while set.
    pub locked: bool,
    pub jumping: bool,
    pub moving: bool,
    pub on_floor: bool,
    pub direction: MoveDirection,
}

impl Controller {
    /// A fresh controller: unlocked, idle, airborne, facing right.
    pub fn new() -> (r: Controller)
        ensures
            r == (Controller {
                locked: false,
                jumping: false,
                moving: false,
                on_floor: false,
                direction: MoveDirection::Right,
            }),
    {
        Controller {
            locked: false,
            jumping: false,
            moving: false,
            on_floor: false,
            direction: MoveDirection::Right,
        }
    }

    /// Reset controller state, generally at the end of the game loop:
    /// the edge-triggered `jumping` and `moving` flags are cleared, the rest
    /// is kept.
    pub fn reset(&mut self)
        ensures
            *final(self) == (Controller { jumping: false, moving: false, ..*old(self) }),
    {
        self.jumping = false;
        self.moving = false;
    }

    pub fn face_left(&mut self)
        ensures
            *final(self) == (Controller { direction: MoveDirection::Left, ..*old(self) }),
    {
        self.direction = MoveDirection::Left;
    }

    pub fn face_right(&mut self)
        ensures
            *final(self) == (Controller { direction: MoveDirection::Right, ..*old(self) }),
    {
        self.direction = MoveDirection::Right;
    }
}

} // verus!
