use vstd::prelude::*;

verus! {

/// Animation timing state, in milliseconds: how long the current frame has
/// been shown, and after how long the next frame is due.
#[derive(Clone, Copy, Debug, PartialEq, Eq, Structural)]
pub struct Animation {
    pub tick: u64,
    pub next: u64,
}

impl Animation {
    /// A fresh animation, due to advance immediately.
    pub fn new() -> (r: Animation)
        ensures
            r.tick == 0,
            r.next == 0,
    {
        Animation { tick: 0, next: 0 }
    }
}

} // verus!
