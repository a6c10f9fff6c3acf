use vstd::prelude::*;

use crate::component::animation::Animation;
use crate::component::sprite::{Sprite, SpriteAssets};
use crate::game::state::State;

verus! {

/// What one tick does to an animated sprite: the elapsed time accumulates
/// (saturating at the counter's limit, so a stuck animation cannot wrap);
/// once the current frame's delay has passed, the sprite advances one frame
/// and the leftover time is carried into the next frame.
pub open spec fn spec_sprite_step(
    s: Sprite,
    a: Animation,
    tick_rate: u64,
    assets: SpriteAssets<'_>,
) -> (Sprite, Animation) {
    let t = if a.tick + tick_rate <= u64::MAX {
        (a.tick + tick_rate) as u64
    } else {
        u64::MAX
    };
    if t < a.next {
        (s, Animation { tick: t, next: a.next })
    } else {
        let (s2, delay) = s.spec_next(assets);
        (s2, Animation { tick: (t - a.next) as u64, next: delay })
    }
}

impl State {
    /// Advances every animated sprite by one tick of `tick_rate`
    /// milliseconds.
    pub fn process_sprites(&mut self, tick_rate: u64, assets: &SpriteAssets<'_>)
        requires
            old(self).world.wf(),
        ensures
            final(self).player == old(self).player,
            final(self).world.wf(),
            final(self).world.sprite@.len() == old(self).world.sprite@.len(),
            final(self).world.animation@.len() == old(self).world.animation@.len(),
            forall|i: int|
                0 <= i < old(self).world.len() ==> {
                    let s0 = #[trigger] old(self).world.sprite@[i];
                    let a0 = old(self).world.animation@[i];
                    if s0 is Some && a0 is Some {
                        let (s2, a2) = spec_sprite_step(
                            s0->Some_0,
                            a0->Some_0,
                            tick_rate,
                            *assets,
                        );
                        final(self).world.sprite@[i] == Some(s2)
                            && final(self).world.animation@[i] == Some(a2)
                    } else {
                        final(self).world.sprite@[i] == s0 && final(self).world.animation@[i] == a0
                    }
                },
            final(self).world.spatial@ == old(self).world.spatial@,
            final(self).world.physics@ == old(self).world.physics@,
            final(self).world.controller@ == old(self).world.controller@,
            final(self).world.coyote@ == old(self).world.coyote@,
            final(self).world.collision@ == old(self).world.collision@,
            final(self).world.player@ == old(self).world.player@,
    {
        let n = self.world.count();
        let mut i: usize = 0;
        while i < n
            invariant
                self.world.wf(),
                self.player == old(self).player,
                n == old(self).world.len(),
                i <= n,
                self.world.sprite@.len() == old(self).world.sprite@.len(),
                self.world.animation@.len() == old(self).world.animation@.len(),
                forall|j: int|
                    0 <= j < i ==> {
                        let s0 = #[trigger] old(self).world.sprite@[j];
                        let a0 = old(self).world.animation@[j];
                        if s0 is Some && a0 is Some {
                            let (s2, a2) = spec_sprite_step(
                                s0->Some_0,
                                a0->Some_0,
                                tick_rate,
                                *assets,
                            );
                            self.world.sprite@[j] == Some(s2) && self.world.animation@[j] == Some(
                                a2,
                            )
                        } else {
                            self.world.sprite@[j] == s0 && self.world.animation@[j] == a0
                        }
                    },
                forall|j: int|
                    i <= j < n ==> self.world.sprite@[j] == old(self).world.sprite@[j]
                        && self.world.animation@[j] == old(self).world.animation@[j],
                self.world.spatial@ == old(self).world.spatial@,
                self.world.physics@ == old(self).world.physics@,
                self.world.controller@ == old(self).world.controller@,
                self.world.coyote@ == old(self).world.coyote@,
                self.world.collision@ == old(self).world.collision@,
                self.world.player@ == old(self).world.player@,
            decreases n - i,
        {
            if let (Some(mut sprite), Some(mut anim)) = (
                self.world.sprite[i],
                self.world.animation[i],
            ) {
                anim.tick = if anim.tick <= u64::MAX - tick_rate {
                    anim.tick + tick_rate
                } else {
                    u64::MAX
                };
                if anim.tick >= anim.next {
                    let (next_sprite, delay) = sprite.next(assets);
                    sprite = next_sprite;
                    anim.tick = anim.tick - anim.next;
                    anim.next = delay;
                    self.world.sprite[i] = Some(sprite);
                }
                self.world.animation[i] = Some(anim);
            }
            i = i + 1;
        }
    }
}

} // verus!
