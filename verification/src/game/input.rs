use vstd::prelude::*;

use crate::component::controller::{Controller, MoveDirection};
use crate::component::coyote::{CoyoteTime, COYOTE_FRAMES};
use crate::game::state::State;

verus! {

/// What one frame of input does to the player's controller and coyote
/// counter.
///
/// A jump press on the floor starts a jump; in the air it is buffered.
/// Holding jump while airborne keeps requesting the jump (for the landing
/// frame). Holding exactly one of left and right walks that way. A locked
/// controller ignores everything.
pub open spec fn spec_input(
    c: Controller,
    y: CoyoteTime,
    jump_pressed: bool,
    jump_held: bool,
    left_held: bool,
    right_held: bool,
) -> (Controller, CoyoteTime) {
    if c.locked {
        (c, y)
    } else {
        let c1 = if jump_pressed && c.on_floor {
            Controller { jumping: true, ..c }
        } else {
            c
        };
        let y1 = if jump_pressed && !c.on_floor {
            CoyoteTime { pre: COYOTE_FRAMES }
        } else {
            y
        };
        let c2 = if jump_held && !c1.on_floor {
            Controller { jumping: true, ..c1 }
        } else {
            c1
        };
        let c3 = if left_held != right_held {
            Controller {
                moving: true,
                direction: if left_held {
                    MoveDirection::Left
                } else {
                    MoveDirection::Right
                },
                ..c2
            }
        } else {
            c2
        };
        (c3, y1)
    }
}

impl State {
    /// Applies one frame of player input, already reduced to plain flags by
    /// the input driver.
    pub fn input(
        &mut self,
        jump_pressed: bool,
        jump_held: bool,
        left_held: bool,
        right_held: bool,
    )
        requires
            old(self).world.wf(),
            old(self).player.0 < old(self).world.len(),
            old(self).world.controller@[old(self).player.0 as int] is Some,
            old(self).world.coyote@[old(self).player.0 as int] is Some,
        ensures
            final(self).player == old(self).player,
            final(self).world.wf(),
            ({
                let i = old(self).player.0 as int;
                let c = old(self).world.controller@[i]->Some_0;
                let y = old(self).world.coyote@[i]->Some_0;
                let (c2, y2) = spec_input(c, y, jump_pressed, jump_held, left_held, right_held);
                &&& final(self).world.controller@ == old(self).world.controller@.update(i, Some(c2))
                &&& final(self).world.coyote@ == old(self).world.coyote@.update(i, Some(y2))
            }),
            final(self).world.spatial@ == old(self).world.spatial@,
            final(self).world.physics@ == old(self).world.physics@,
            final(self).world.collision@ == old(self).world.collision@,
            final(self).world.sprite@ == old(self).world.sprite@,
            final(self).world.animation@ == old(self).world.animation@,
            final(self).world.player@ == old(self).world.player@,
    {
        let i = self.player.0 as usize;
        let mut conn = self.world.controller[i].unwrap();
        let mut yote = self.world.coyote[i].unwrap();

        if conn.locked {
            proof {
                assert(self.world.controller@ =~= old(
                    self,
                ).world.controller@.update(i as int, Some(conn)));
                assert(self.world.coyote@ =~= old(self).world.coyote@.update(i as int, Some(yote)));
            }
            return ;
        }

        if jump_pressed {
            if conn.on_floor {
                conn.jumping = true;
            } else {
                yote.set_pre_jump();
            }
        }
        if jump_held && !conn.on_floor {
            conn.jumping = true;
        }

        if left_held != right_held {
            conn.moving = true;
            if left_held {
                conn.face_left();
            } else {
                conn.face_right();
            }
        }

        self.world.controller[i] = Some(conn);
        self.world.coyote[i] = Some(yote);
    }
}

} // verus!
