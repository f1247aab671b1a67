use vstd::prelude::*;
use crate::animation::lemma_advance_same_instant;
use crate::clock::get_current_time;
use crate::physics::{
    abs, decelerate_exec, movement_step, on_floor, physics_step, round_to_exec, trunc_div_exec, Motion,
    AIR_FRICTION, DEAD_ZONE, FLOOR_FRICTION, GRAVITY, MAX_RUN_SPEED, MOTION_BOUND, POSITION_STEP,
    RUN_ACCELERATION, STEP_DIVISOR, SUBUNITS, TERMINAL_VELOCITY, VELOCITY_STEP, WORLD_HEIGHT,
    WORLD_WIDTH,
};
use crate::raster::Image;
use crate::render::{compose, layer_of, layers_of, lemma_paint_layers_len, paint_layers, paint_sprite, whole_exec, FRAME_BYTES};
use crate::sprite::Sprite;

verus! {

/// A key the world reacts to.
#[derive(Clone, Copy, Debug, PartialEq, Eq, Structural)]
pub enum Key {
    Left,
    Right,
    Other,
}

/// The background and the sprites; sprite 0 is the body under control.
pub struct World {
    pub right_held: bool,
    pub left_held: bool,
    pub background_image: Image,
    pub sprites: Vec<Sprite>,
}

pub open spec fn motion_of(s: Sprite) -> Motion {
    Motion { px: s.position.0 as int, py: s.position.1 as int, vx: s.velocity.0 as int, vy: s.velocity.1 as int }
}

/// Every coordinate of the motion is within `MOTION_BOUND`.
pub open spec fn motion_in_bounds(s: Sprite) -> bool {
    &&& -MOTION_BOUND <= s.position.0 <= MOTION_BOUND
    &&& -MOTION_BOUND <= s.position.1 <= MOTION_BOUND
    &&& -MOTION_BOUND <= s.velocity.0 <= MOTION_BOUND
    &&& -MOTION_BOUND <= s.velocity.1 <= MOTION_BOUND
}

impl World {
    pub open spec fn wf(&self) -> bool {
        &&& self.background_image.wf()
        &&& self.background_image.width == WORLD_WIDTH
        &&& self.background_image.height == WORLD_HEIGHT
        &&& self.sprites@.len() >= 1
        &&& forall|i: int| 0 <= i < self.sprites@.len() ==> #[trigger] self.sprites@[i].wf()
    }

    /// Every sprite's clip can move on one frame without overflow.
    pub open spec fn can_animate(&self) -> bool {
        forall|i: int| 0 <= i < self.sprites@.len() ==> #[trigger] self.sprites@[i].can_animate()
    }

    /// `other` is this world after every sprite's clip was ticked at `now`.
    pub open spec fn animated_to(&self, other: &World, now: u128) -> bool {
        &&& other.right_held == self.right_held
        &&& other.left_held == self.left_held
        &&& other.background_image == self.background_image
        &&& other.sprites@.len() == self.sprites@.len()
        &&& forall|i: int| 0 <= i < self.sprites@.len()
            ==> #[trigger] self.sprites@[i].animated_to(&other.sprites@[i], now)
    }

    /// `other` differs from this world at most in the motion of sprite 0,
    /// which is `m`.
    pub open spec fn moved_to(&self, other: &World, m: Motion) -> bool {
        let s = self.sprites@[0];
        let t = other.sprites@[0];
        &&& other.right_held == self.right_held
        &&& other.left_held == self.left_held
        &&& other.background_image == self.background_image
        &&& other.sprites@.len() == self.sprites@.len()
        &&& forall|i: int| 1 <= i < self.sprites@.len() ==> #[trigger] other.sprites@[i] == self.sprites@[i]
        &&& t.size == s.size
        &&& t.facing_left == s.facing_left
        &&& t.sprite_sheet == s.sprite_sheet
        &&& motion_of(t) == m
    }

    /// The frame the compositor makes of this world.
    pub open spec fn frame_spec(&self) -> Seq<u8> {
        compose(self.background_image.data@, self.sprites@)
    }

    /// A world with no key held.
    pub fn new(sprites: Vec<Sprite>, background_image: Image) -> (r: Self)
        requires
            background_image.wf(),
            background_image.width == WORLD_WIDTH,
            background_image.height == WORLD_HEIGHT,
            sprites@.len() >= 1,
            forall|i: int| 0 <= i < sprites@.len() ==> #[trigger] sprites@[i].wf(),
        ensures
            r.wf(),
            !r.right_held,
            !r.left_held,
            r.background_image == background_image,
            r.sprites@ == sprites@,
    {
        World { right_held: false, left_held: false, background_image, sprites }
    }

    /// Shows clip `animation_index` on sprite `sprite`.
    pub fn set_sprite_animation(&mut self, sprite: usize, animation_index: usize)
        requires
            old(self).wf(),
            sprite < old(self).sprites@.len(),
            animation_index < old(self).sprites@[sprite as int].sprite_sheet.animations@.len(),
        ensures
            final(self).wf(),
            final(self).right_held == old(self).right_held,
            final(self).left_held == old(self).left_held,
            final(self).background_image == old(self).background_image,
            final(self).sprites@ == old(self).sprites@.update(
                sprite as int,
                (Sprite {
                    sprite_sheet: (crate::sprite::SpriteSheet {
                        current_animation: animation_index,
                        ..old(self).sprites@[sprite as int].sprite_sheet
                    }),
                    ..old(self).sprites@[sprite as int]
                }),
            ),
    {
        self.sprites[sprite].sprite_sheet.current_animation = animation_index;
        proof {
            let s = self.sprites@;
            assert forall|i: int| 0 <= i < s.len() implies #[trigger] s[i].wf() by {
                if i != sprite as int {
                    assert(s[i] == old(self).sprites@[i]);
                } else {
                    let a = s[i].sprite_sheet.animations@;
                    assert(a == old(self).sprites@[i].sprite_sheet.animations@);
                    assert(old(self).sprites@[i].wf());
                    assert forall|j: int| 0 <= j < a.len() implies #[trigger] a[j].wf() by {
                        assert(old(self).sprites@[i].sprite_sheet.animations@[j].wf());
                    }
                }
            }
        }
    }

    /// Records that `key_id` is pressed.
    pub fn key_held(&mut self, key_id: Key)
        ensures
            final(self).right_held == (old(self).right_held || key_id == Key::Right),
            final(self).left_held == (old(self).left_held || key_id == Key::Left),
            final(self).background_image == old(self).background_image,
            final(self).sprites@ == old(self).sprites@,
    {
        if key_id == Key::Right {
            self.right_held = true;
        }
        if key_id == Key::Left {
            self.left_held = true;
        }
    }

    /// Records that `key_id` is let go.
    pub fn key_released(&mut self, key_id: Key)
        ensures
            final(self).right_held == (old(self).right_held && key_id != Key::Right),
            final(self).left_held == (old(self).left_held && key_id != Key::Left),
            final(self).background_image == old(self).background_image,
            final(self).sprites@ == old(self).sprites@,
    {
        if key_id == Key::Right {
            self.right_held = false;
        }
        if key_id == Key::Left {
            self.left_held = false;
        }
    }

    /// Sets the vertical velocity of sprite `sprite_index`.
    pub fn set_velocity_y(&mut self, velocity: i64, sprite_index: usize)
        requires
            old(self).wf(),
            sprite_index < old(self).sprites@.len(),
        ensures
            final(self).wf(),
            final(self).right_held == old(self).right_held,
            final(self).left_held == old(self).left_held,
            final(self).background_image == old(self).background_image,
            final(self).sprites@ == old(self).sprites@.update(
                sprite_index as int,
                (Sprite {
                    velocity: (old(self).sprites@[sprite_index as int].velocity.0, velocity),
                    ..old(self).sprites@[sprite_index as int]
                }),
            ),
    {
        self.sprites[sprite_index].velocity.1 = velocity;
        proof {
            let s = self.sprites@;
            assert forall|i: int| 0 <= i < s.len() implies #[trigger] s[i].wf() by {
                if i != sprite_index as int {
                    assert(s[i] == old(self).sprites@[i]);
                } else {
                    assert(s[i].sprite_sheet == old(self).sprites@[i].sprite_sheet);
                    assert(old(self).sprites@[i].wf());
                }
            }
        }
    }
    /// The control step for sprite 0: accelerate for each held key while
    /// below the run speed, keep the velocity to `VELOCITY_STEP`, and snap
    /// speeds under `DEAD_ZONE` to rest.
    pub fn update_movement(&mut self)
        requires
            old(self).wf(),
            -MOTION_BOUND <= old(self).sprites@[0].velocity.0 <= MOTION_BOUND,
        ensures
            final(self).wf(),
            old(self).moved_to(
                final(self),
                (Motion {
                    vx: movement_step(old(self).sprites@[0].velocity.0 as int, old(self).right_held, old(self).left_held),
                    ..motion_of(old(self).sprites@[0])
                }),
            ),
    {
        let v = self.sprites[0].velocity.0;
        let mut v1 = v;
        if self.right_held && abs_exec(v) < MAX_RUN_SPEED {
            v1 = v + RUN_ACCELERATION;
        }
        let mut v2 = v1;
        if self.left_held && abs_exec(v1) < MAX_RUN_SPEED {
            v2 = v1 - RUN_ACCELERATION;
        }
        let v3 = round_to_exec(v2, VELOCITY_STEP);
        let v4 = if abs_exec(v3) < DEAD_ZONE { 0 } else { v3 };
        self.sprites[0].velocity.0 = v4;
        proof {
            self.lemma_wf_after_motion_change(old(self));
        }
    }

    /// The physics step for sprite 0; see `physics_step`.
    pub fn update_physics(&mut self)
        requires
            old(self).wf(),
            motion_in_bounds(old(self).sprites@[0]),
        ensures
            final(self).wf(),
            old(self).moved_to(
                final(self),
                physics_step(motion_of(old(self).sprites@[0]), old(self).sprites@[0].size.0 as int, old(self).sprites@[0].size.1 as int),
            ),
    {
        let w = self.sprites[0].size.0 as i64;
        let h = self.sprites[0].size.1 as i64;
        let (px, py) = self.sprites[0].position;
        let (vx, vy) = self.sprites[0].velocity;
        let friction = if self.sprites[0].collision_y() { FLOOR_FRICTION } else { AIR_FRICTION };

        // Move the body
        let px1 = px + trunc_div_exec(vx, STEP_DIVISOR);
        let py1 = py + trunc_div_exec(vy, STEP_DIVISOR);

        // Stop at the side walls, else slow down
        let wx = whole_exec(px1);
        let vx1 = if wx <= 0 || wx + w > WORLD_WIDTH as i64 { 0 } else { decelerate_exec(vx, friction) };
        let px2 = round_to_exec(px1, POSITION_STEP);

        // Fall, or rest on the floor
        let wy = whole_exec(py1);
        let mut py2 = py1;
        let mut vy1 = vy;
        if wy + h < WORLD_HEIGHT as i64 && vy < TERMINAL_VELOCITY {
            vy1 = vy + GRAVITY;
        } else if wy + h >= WORLD_HEIGHT as i64 {
            py2 = (WORLD_HEIGHT as i64 - h) * SUBUNITS;
            vy1 = 0;
        }
        self.sprites[0].position = (px2, py2);
        self.sprites[0].velocity = (vx1, vy1);
        proof {
            self.lemma_wf_after_motion_change(old(self));
        }
    }

    /// Changing only the motion of sprite 0 keeps the world well formed.
    proof fn lemma_wf_after_motion_change(&self, before: &World)
        requires
            before.wf(),
            self.right_held == before.right_held,
            self.left_held == before.left_held,
            self.background_image == before.background_image,
            self.sprites@.len() == before.sprites@.len(),
            forall|i: int| 1 <= i < before.sprites@.len() ==> #[trigger] self.sprites@[i] == before.sprites@[i],
            self.sprites@[0].size == before.sprites@[0].size,
            self.sprites@[0].sprite_sheet == before.sprites@[0].sprite_sheet,
        ensures
            self.wf(),
    {
        assert forall|i: int| 0 <= i < self.sprites@.len() implies #[trigger] self.sprites@[i].wf() by {
            if i != 0 {
                assert(self.sprites@[i] == before.sprites@[i]);
            }
            assert(before.sprites@[i].wf());
        }
    }

    /// Ticks the shown clip of every sprite at time `now`.
    pub fn update_sprite_animations(&mut self, now: u128)
        requires
            old(self).wf(),
            old(self).can_animate(),
        ensures
            final(self).wf(),
            old(self).animated_to(final(self), now),
    {
        let n = self.sprites.len();
        let mut i: usize = 0;
        while i < n
            invariant
                self.sprites@.len() == n,
                n == old(self).sprites@.len(),
                0 <= i <= n,
                self.right_held == old(self).right_held,
                self.left_held == old(self).left_held,
                self.background_image == old(self).background_image,
                self.wf(),
                forall|j: int| 0 <= j < i ==> #[trigger] old(self).sprites@[j].animated_to(&self.sprites@[j], now),
                forall|j: int| i <= j < n ==> #[trigger] self.sprites@[j] == old(self).sprites@[j],
                old(self).can_animate(),
            decreases n - i,
        {
            assert(self.sprites@[i as int] == old(self).sprites@[i as int]);
            assert(old(self).sprites@[i as int].can_animate());
            let ghost before = self.sprites@;
            self.sprites[i].run_animation(now);
            proof {
                let s = self.sprites@;
                assert forall|j: int| 0 <= j < s.len() implies #[trigger] s[j].wf() by {
                    if j != i as int {
                        assert(s[j] == before[j]);
                    }
                }
                assert forall|j: int| 0 <= j < i + 1 implies #[trigger] old(self).sprites@[j].animated_to(&s[j], now) by {
                    if j != i as int {
                        assert(s[j] == before[j]);
                    }
                }
            }
            i = i + 1;
        }
    }

    /// Fills `frame` with the background and then every sprite's current
    /// frame blended over it, in list order.
    pub fn composite(&self, frame: &mut Vec<u8>)
        requires
            self.wf(),
            old(frame)@.len() == FRAME_BYTES,
        ensures
            final(frame)@ == self.frame_spec(),
    {
        let background = &self.background_image.data;
        assert(background@.len() == FRAME_BYTES);
        let mut i: usize = 0;
        while i < FRAME_BYTES
            invariant
                frame@.len() == FRAME_BYTES,
                background@.len() == FRAME_BYTES,
                background@ == self.background_image.data@,
                0 <= i <= FRAME_BYTES,
                forall|j: int| 0 <= j < i ==> #[trigger] frame@[j] == background@[j],
            decreases FRAME_BYTES - i,
        {
            frame[i] = background[i];
            i = i + 1;
        }
        assert(frame@ =~= background@);
        let ghost layers = layers_of(self.sprites@);
        let mut k: usize = 0;
        while k < self.sprites.len()
            invariant
                self.wf(),
                layers == layers_of(self.sprites@),
                0 <= k <= self.sprites@.len(),
                frame@.len() == FRAME_BYTES,
                frame@ == paint_layers(self.background_image.data@, layers, k as nat),
            decreases self.sprites@.len() - k,
        {
            assert(layers[k as int] == layer_of(self.sprites@[k as int]));
            assert(self.sprites@[k as int].wf());
            paint_sprite(frame, &self.sprites[k]);
            k = k + 1;
            proof {
                lemma_paint_layers_len(self.background_image.data@, layers, k as nat);
            }
        }
    }

    /// Ticks every sprite's clip at time `now`, then composites the frame.
    pub fn draw_at(&mut self, frame: &mut Vec<u8>, now: u128)
        requires
            old(self).wf(),
            old(self).can_animate(),
            old(frame)@.len() == FRAME_BYTES,
        ensures
            final(self).wf(),
            old(self).animated_to(final(self), now),
            final(frame)@ == final(self).frame_spec(),
    {
        self.update_sprite_animations(now);
        self.composite(frame);
    }

    /// Ticks every sprite's clip by the wall clock, then composites the
    /// frame. When the clock cannot be read the clips stay as they are.
    pub fn draw(&mut self, frame: &mut Vec<u8>)
        requires
            old(self).wf(),
            old(self).can_animate(),
            old(frame)@.len() == FRAME_BYTES,
        ensures
            final(self).wf(),
            *final(self) == *old(self) || exists|now: u128| old(self).animated_to(final(self), now),
            final(frame)@ == final(self).frame_spec(),
    {
        match get_current_time() {
            Some(now) => self.draw_at(frame, now),
            None => self.composite(frame),
        }
    }
}

fn abs_exec(v: i64) -> (r: i64)
    requires
        v > i64::MIN,
    ensures
        r == abs(v as int),
{
    if v >= 0 { v } else { -v }
}

/// Drawing twice at the same instant, with nothing else changed in between,
/// fills the buffer identically both times.
pub proof fn lemma_draw_twice_same_frame(w0: World, w1: World, w2: World, now: u128)
    requires
        w0.wf(),
        w0.animated_to(&w1, now),
        w1.animated_to(&w2, now),
    ensures
        w2.frame_spec() == w1.frame_spec(),
{
    let s0 = w0.sprites@;
    let s1 = w1.sprites@;
    let s2 = w2.sprites@;
    assert forall|i: int| 0 <= i < s1.len() implies #[trigger] layer_of(s2[i]) == layer_of(s1[i]) by {
        assert(s0[i].animated_to(&s1[i], now));
        assert(s1[i].animated_to(&s2[i], now));
        assert(s0[i].wf());
        let sheet = s0[i].sprite_sheet;
        lemma_advance_same_instant(sheet.current(), sheet.frame_size, sheet.sheet_dimensions.0, now);
        assert(s1[i].sprite_sheet.current() == sheet.current().advanced(sheet.frame_size, sheet.sheet_dimensions.0, now));
    }
    assert(layers_of(s2) =~= layers_of(s1));
}

} // verus!
