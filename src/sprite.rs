use vstd::prelude::*;
use crate::animation::Animation;
use crate::physics::{on_floor, WORLD_HEIGHT};
use crate::raster::Image;
use crate::render::whole_exec;

verus! {

/// An image cut into equal frames, with the clips that walk through them.
pub struct SpriteSheet {
    pub texture: Image,
    pub frame_size: (u16, u16),
    pub animations: Vec<Animation>,
    pub current_animation: usize,
    /// `(width, height)` of `texture`.
    pub sheet_dimensions: (u16, u16),
}

impl SpriteSheet {
    pub open spec fn wf(&self) -> bool {
        &&& self.texture.wf()
        &&& self.animations@.len() >= 1
        &&& self.current_animation < self.animations@.len()
        &&& forall|i: int| 0 <= i < self.animations@.len() ==> #[trigger] self.animations@[i].wf()
        &&& self.sheet_dimensions == (self.texture.width, self.texture.height)
    }

    pub open spec fn current(&self) -> Animation {
        self.animations@[self.current_animation as int]
    }

    /// A sheet over `texture` showing its first clip.
    pub fn new(texture: Image, animations: Vec<Animation>, frame_size: (u16, u16)) -> (r: Self)
        requires
            texture.wf(),
            animations@.len() >= 1,
            forall|i: int| 0 <= i < animations@.len() ==> #[trigger] animations@[i].wf(),
        ensures
            r.wf(),
            r.texture == texture,
            r.animations@ == animations@,
            r.frame_size == frame_size,
            r.current_animation == 0,
    {
        let height = texture.height;
        let width = texture.width;
        SpriteSheet {
            texture,
            frame_size,
            animations,
            current_animation: 0,
            sheet_dimensions: (width, height),
        }
    }
}

/// A body in the world drawn from a sprite sheet.
pub struct Sprite {
    /// `(width, height)` in pixels; the sheet's frame size.
    pub size: (u16, u16),
    pub facing_left: bool,
    /// Top-left corner, in `SUBUNITS` per pixel.
    pub position: (i64, i64),
    /// In `SUBUNITS` per pixel; a tick moves the body by a fifth of it.
    pub velocity: (i64, i64),
    pub sprite_sheet: SpriteSheet,
}

impl Sprite {
    pub open spec fn wf(&self) -> bool {
        self.sprite_sheet.wf() && self.size == self.sprite_sheet.frame_size
    }

    /// The clip shown now can move on one frame without overflow.
    pub open spec fn can_animate(&self) -> bool {
        self.sprite_sheet.current().can_advance(self.sprite_sheet.frame_size)
    }

    /// `other` is this sprite after its clip was ticked at time `now`.
    pub open spec fn animated_to(&self, other: &Sprite, now: u128) -> bool {
        let sheet = self.sprite_sheet;
        &&& other.size == self.size
        &&& other.facing_left == self.facing_left
        &&& other.position == self.position
        &&& other.velocity == self.velocity
        &&& other.sprite_sheet.texture == sheet.texture
        &&& other.sprite_sheet.frame_size == sheet.frame_size
        &&& other.sprite_sheet.current_animation == sheet.current_animation
        &&& other.sprite_sheet.sheet_dimensions == sheet.sheet_dimensions
        &&& other.sprite_sheet.animations@ == sheet.animations@.update(
            sheet.current_animation as int,
            sheet.current().advanced(sheet.frame_size, sheet.sheet_dimensions.0, now),
        )
    }

    /// A sprite at rest at the origin, as big as one frame of its sheet.
    pub fn new(sprite_sheet: SpriteSheet) -> (r: Self)
        requires
            sprite_sheet.wf(),
        ensures
            r.wf(),
            r.size == sprite_sheet.frame_size,
            r.sprite_sheet == sprite_sheet,
            !r.facing_left,
            r.position == (0i64, 0i64),
            r.velocity == (0i64, 0i64),
    {
        Sprite {
            size: sprite_sheet.frame_size,
            sprite_sheet,
            facing_left: false,
            position: (0, 0),
            velocity: (0, 0),
        }
    }

    /// Whether the bottom edge touches or passes the floor of the world.
    pub fn collision_y(&self) -> (r: bool)
        ensures
            r == on_floor(self.position.1 as int, self.size.1 as int),
    {
        whole_exec(self.position.1) + self.size.1 as i64 >= WORLD_HEIGHT as i64
    }

    /// Ticks the clip shown now at time `now`.
    pub fn run_animation(&mut self, now: u128)
        requires
            old(self).wf(),
            old(self).can_animate(),
        ensures
            final(self).wf(),
            old(self).animated_to(final(self), now),
    {
        let frame_size = self.sprite_sheet.frame_size;
        let sheet_width = self.sprite_sheet.sheet_dimensions.0;
        let current = self.sprite_sheet.current_animation;
        self.sprite_sheet.animations[current].increment_frame_at(frame_size, sheet_width, now);
        proof {
            let a = self.sprite_sheet.animations@;
            assert forall|i: int| 0 <= i < a.len() implies #[trigger] a[i].wf() by {
                if i != current as int {
                    assert(a[i] == old(self).sprite_sheet.animations@[i]);
                }
            }
        }
    }

    /// The offset within the sheet of the frame shown now.
    pub fn get_sheet_offset(&self) -> (r: (u16, u16))
        requires
            self.wf(),
        ensures
            r == self.sprite_sheet.current().current_position,
    {
        let current = self.sprite_sheet.current_animation;
        self.sprite_sheet.animations[current].current_position
    }

    /// The image the frames are cut from.
    pub fn get_sprite_sheet(&self) -> (r: &Image)
        ensures
            *r == self.sprite_sheet.texture,
    {
        &self.sprite_sheet.texture
    }
}

} // verus!
