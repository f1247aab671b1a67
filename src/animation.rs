use vstd::prelude::*;
use crate::clock::get_current_time;

verus! {

/// One clip of a sprite sheet: which frame is shown and when to move on.
#[derive(Clone, Copy, Debug)]
pub struct Animation {
    /// Pixel offset of frame 0 within the sheet.
    pub starting_frame_position: (u16, u16),
    pub num_frames: u16,
    /// Milliseconds between frames; zero for a clip that never moves.
    pub frame_duration: u64,
    pub current_frame: u16,
    /// Pixel offset of the frame shown now.
    pub current_position: (u16, u16),
    /// Time, in milliseconds, of the last advance.
    pub previous_frame_time: u128,
}

impl Animation {
    pub open spec fn wf(&self) -> bool {
        self.num_frames >= 1 && self.current_frame < self.num_frames
    }

    /// Moving one frame on does not take the row offset past `u16::MAX`.
    pub open spec fn can_advance(&self, frame_size: (u16, u16)) -> bool {
        self.current_position.1 as int + frame_size.1 as int <= u16::MAX as int
    }

    /// The offset of the frame after `pos`, walking the sheet row by row; a
    /// frame wraps to the next row once two more frame widths would reach
    /// the sheet's right edge.
    pub open spec fn next_position(pos: (u16, u16), frame_size: (u16, u16), sheet_width: u16) -> (u16, u16) {
        if pos.0 as int + 2 * frame_size.0 as int >= sheet_width as int {
            (0u16, (pos.1 as int + frame_size.1 as int) as u16)
        } else {
            ((pos.0 as int + frame_size.0 as int) as u16, pos.1)
        }
    }

    /// Whether a tick at time `now` moves the clip on.
    pub open spec fn due(&self, now: u128) -> bool {
        self.frame_duration != 0
            && now as int - self.previous_frame_time as int >= self.frame_duration as int
    }

    /// The clip after a tick at time `now`.
    pub open spec fn advanced(self, frame_size: (u16, u16), sheet_width: u16, now: u128) -> Animation {
        if !self.due(now) {
            self
        } else if self.current_frame as int >= self.num_frames as int - 1 {
            Animation {
                current_frame: 0,
                current_position: self.starting_frame_position,
                previous_frame_time: now,
                ..self
            }
        } else {
            Animation {
                current_frame: (self.current_frame + 1) as u16,
                current_position: Self::next_position(self.current_position, frame_size, sheet_width),
                previous_frame_time: now,
                ..self
            }
        }
    }

    /// A clip of `num_frames` frames starting at `starting_frame_position`,
    /// showing its first frame.
    pub fn new(starting_frame_position: (u16, u16), num_frames: u16, frame_duration: u64) -> (r: Self)
        requires
            num_frames >= 1,
        ensures
            r.wf(),
            r.starting_frame_position == starting_frame_position,
            r.num_frames == num_frames,
            r.frame_duration == frame_duration,
            r.current_frame == 0,
            r.current_position == starting_frame_position,
            r.previous_frame_time == 0,
    {
        Animation {
            starting_frame_position,
            num_frames,
            frame_duration,
            current_frame: 0,
            current_position: starting_frame_position,
            previous_frame_time: 0,
        }
    }

    /// Moves on one frame if `frame_duration` has passed since the last
    /// advance at time `now`; after the last frame the clip starts over.
    pub fn increment_frame_at(&mut self, frame_size: (u16, u16), sheet_width: u16, now: u128)
        requires
            old(self).wf(),
            old(self).can_advance(frame_size),
        ensures
            *final(self) == old(self).advanced(frame_size, sheet_width, now),
            final(self).wf(),
    {
        if self.frame_duration == 0 {
            return;
        }
        if now < self.previous_frame_time || now - self.previous_frame_time < self.frame_duration as u128 {
            return;
        }
        if self.current_frame >= self.num_frames - 1 {
            self.current_frame = 0;
            self.current_position = self.starting_frame_position;
        } else {
            if self.current_position.0 as u32 + frame_size.0 as u32 * 2 >= sheet_width as u32 {
                self.current_position = (0, self.current_position.1 + frame_size.1);
            } else {
                self.current_position = (self.current_position.0 + frame_size.0, self.current_position.1);
            }
            self.current_frame = self.current_frame + 1;
        }
        self.previous_frame_time = now;
    }

    /// Moves on one frame if `frame_duration` has passed by the wall clock.
    /// When the clock cannot be read the clip is left as it is.
    pub fn increment_frame(&mut self, frame_size: (u16, u16), sheet_width: u16)
        requires
            old(self).wf(),
            old(self).can_advance(frame_size),
        ensures
            final(self).wf(),
            *final(self) == *old(self)
                || exists|now: u128| *final(self) == old(self).advanced(frame_size, sheet_width, now),
    {
        match get_current_time() {
            Some(now) => self.increment_frame_at(frame_size, sheet_width, now),
            None => {},
        }
    }
}

/// Ticking a clip twice at the same instant is the same as ticking it once:
/// an advance stamps the clip with that instant, so the second tick finds
/// no time elapsed.
pub proof fn lemma_advance_same_instant(a: Animation, frame_size: (u16, u16), sheet_width: u16, now: u128)
    ensures
        a.advanced(frame_size, sheet_width, now).advanced(frame_size, sheet_width, now)
            == a.advanced(frame_size, sheet_width, now),
{
}

} // verus!
