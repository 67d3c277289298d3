//! The state of a running sprite animation.

use vstd::prelude::*;
use crate::scalar::{ONE_BITS, Scalar, ZERO_BITS};
use crate::sprite::{SpriteSheetComponent, frame_after};

verus! {

/// Where an animation stands.
#[derive(Clone, Copy, Debug, PartialEq, Eq, Structural)]
pub struct AnimatorComponent {
    /// Seconds since the animation began.
    pub elapsed_time: Scalar,
    pub is_playing: bool,
    pub current_frame: u32,
    /// Multiplies elapsed time; one is normal speed.
    pub speed: Scalar,
}

impl AnimatorComponent {
    /// The animator after time has moved on to `elapsed_time`, which is
    /// `index` whole frame durations of `sheet`: a playing animator takes
    /// the time and shows the sheet's frame for it; a stopped one stays.
    pub open spec fn advanced(self, sheet: SpriteSheetComponent, elapsed_time: Scalar, index: u32)
        -> AnimatorComponent {
        if self.is_playing {
            AnimatorComponent {
                elapsed_time,
                current_frame: frame_after(sheet.frame_count, sheet.looping, index),
                ..self
            }
        } else {
            self
        }
    }

    /// Moves the animation on to `elapsed_time`, which is `index` whole
    /// frame durations of `sheet`.
    pub fn advance(&mut self, sheet: &SpriteSheetComponent, elapsed_time: Scalar, index: u32)
        ensures
            *final(self) == old(self).advanced(*sheet, elapsed_time, index),
    {
        if self.is_playing {
            self.elapsed_time = elapsed_time;
            self.current_frame = sheet.frame_for_index(index);
        }
    }
}

impl Default for AnimatorComponent {
    /// An animation at its start, playing at normal speed.
    fn default() -> (animator: AnimatorComponent)
        ensures
            animator == (AnimatorComponent {
                elapsed_time: Scalar { bits: ZERO_BITS },
                is_playing: true,
                current_frame: 0,
                speed: Scalar { bits: ONE_BITS },
            }),
    {
        AnimatorComponent {
            elapsed_time: Scalar::zero(),
            is_playing: true,
            current_frame: 0,
            speed: Scalar::one(),
        }
    }
}

} // verus!
