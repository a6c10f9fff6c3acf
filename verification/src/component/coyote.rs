use vstd::prelude::*;

verus! {

/// How many frames of leeway a buffered jump request is kept for.
pub const COYOTE_FRAMES: u32 = 5;

/// Provides 'coyote time' to an Entity.
///
/// This adds some leeway in allowing jump inputs to just before landing on
/// the ground, or after running off of a ledge.
#[derive(Clone, Copy, Debug, PartialEq, Eq, Structural)]
pub struct CoyoteTime {
    /// Frames left in the pre-jump buffering window; positive while a jump
    /// request made in the air is still honoured on landing.
    pub pre: u32,
}

impl CoyoteTime {
    /// A fresh counter with no buffered request.
    pub fn new() -> (r: CoyoteTime)
        ensures
            r.pre == 0,
    {
        CoyoteTime { pre: 0 }
    }

    /// Consumes one frame of the buffering window, saturating at zero.
    pub fn tick(&mut self)
        ensures
            final(self).pre == if old(self).pre > 0 {
                old(self).pre - 1
            } else {
                0
            },
    {
        if self.pre > 0 {
            self.pre = self.pre - 1;
        }
    }

    /// Clears any buffered request.
    pub fn reset(&mut self)
        ensures
            final(self).pre == 0,
    {
        self.pre = 0;
    }

    /// Whether a buffered jump request is still pending.
    pub fn pre_jump(&self) -> (r: bool)
        ensures
            r == (self.pre > 0),
    {
        self.pre > 0
    }

    /// Buffers a jump request for the full window.
    pub fn set_pre_jump(&mut self)
        ensures
            final(self).pre == COYOTE_FRAMES,
    {
        self.pre = COYOTE_FRAMES;
    }
}

} // verus!
