//! Components of animated entities: markers, animation state, the sprite
//! sheet, and the movement strategies.
//!
//! A strategy gives an entity's position as a function of its origin and of
//! elapsed time. Evaluating that function takes rounding and is the host's
//! part; what a strategy is called, and which way a wandering entity turns
//! in each of its segments, is settled here.

use vstd::prelude::*;
use crate::scalar::{ONE_BITS, Scalar, ZERO_BITS};
use crate::sprite::{DEFAULT_FRAME_DURATION_BITS, FrameCell, cell_of, frame_after, frame_for_index};

verus! {

/// Bit pattern of -1.0.
pub const MINUS_ONE_BITS: u32 = 0xBF80_0000;

/// The multiplier of the seed in the segment hash.
pub const SEED_MULTIPLIER: u32 = 2654435761;

/// The multiplier of the segment number in the segment hash.
pub const SEGMENT_MULTIPLIER: u32 = 1597334677;

/// Marks an animated game entity.
#[derive(Clone, Copy, Debug, Default, PartialEq, Eq, Structural)]
pub struct GameEntity;

/// Marks an entity that player input controls.
#[derive(Clone, Copy, Debug, Default, PartialEq, Eq, Structural)]
pub struct Controllable;

/// Where an animation stands.
#[derive(Clone, Copy, Debug, PartialEq, Eq, Structural)]
pub struct AnimatorComponent {
    /// Seconds since the animation began.
    pub elapsed_time: Scalar,
    pub is_playing: bool,
    /// Multiplies elapsed time; one is normal speed.
    pub speed: Scalar,
    pub current_frame: u32,
}

impl Default for AnimatorComponent {
    /// An animation at its start, playing at normal speed.
    fn default() -> (animator: AnimatorComponent)
        ensures
            animator == (AnimatorComponent {
                elapsed_time: Scalar { bits: ZERO_BITS },
                is_playing: true,
                speed: Scalar { bits: ONE_BITS },
                current_frame: 0,
            }),
    {
        AnimatorComponent {
            elapsed_time: Scalar::zero(),
            is_playing: true,
            speed: Scalar::one(),
            current_frame: 0,
        }
    }
}

/// The frame layout of a sprite sheet, columns first.
#[derive(Clone, Copy, Debug, PartialEq, Eq, Structural)]
pub struct SpriteSheetComponent {
    pub columns: u32,
    pub rows: u32,
    /// May be less than `columns * rows`.
    pub frame_count: u32,
    /// Seconds per frame.
    pub frame_duration: Scalar,
    pub looping: bool,
}

/// `frame`, held to the last frame of a sheet of `frame_count` frames.
pub open spec fn held_frame(frame_count: u32, frame: u32) -> u32 {
    if frame_count == 0 {
        0
    } else if frame < frame_count {
        frame
    } else {
        (frame_count - 1) as u32
    }
}

impl SpriteSheetComponent {
    /// A sheet of `columns` by `rows` frames.
    pub fn new(columns: u32, rows: u32, frame_count: u32, frame_duration: Scalar, looping: bool) -> (sheet:
        SpriteSheetComponent)
        ensures
            sheet == (SpriteSheetComponent { columns, rows, frame_count, frame_duration, looping }),
    {
        SpriteSheetComponent { columns, rows, frame_count, frame_duration, looping }
    }

    /// The frame shown after `index` whole frame durations.
    pub fn frame_for_index(&self, index: u32) -> (frame: u32)
        ensures
            frame == frame_after(self.frame_count, self.looping, index),
            self.frame_count > 0 ==> frame < self.frame_count,
    {
        frame_for_index(self.frame_count, self.looping, index)
    }

    /// The cell that `frame` is drawn from in spec form: a frame number past
    /// the end is held to the last frame. A sheet without columns has no
    /// cells.
    pub open spec fn spec_cell_for_frame(self, frame: u32) -> Option<FrameCell> {
        if self.columns == 0 {
            None
        } else {
            Some(cell_of(self.columns, held_frame(self.frame_count, frame)))
        }
    }

    /// The cell that `frame` is drawn from.
    pub fn cell_for_frame(&self, frame: u32) -> (cell: Option<FrameCell>)
        ensures
            cell == self.spec_cell_for_frame(frame),
    {
        if self.columns == 0 {
            None
        } else {
            let last = self.frame_count.saturating_sub(1);
            let held = if frame < last {
                frame
            } else {
                last
            };
            Some(FrameCell { col: held % self.columns, row: held / self.columns })
        }
    }
}

impl Default for SpriteSheetComponent {
    /// A looping sheet of a single frame that lasts a tenth of a second.
    fn default() -> (sheet: SpriteSheetComponent)
        ensures
            sheet == (SpriteSheetComponent {
                columns: 1,
                rows: 1,
                frame_count: 1,
                frame_duration: Scalar { bits: DEFAULT_FRAME_DURATION_BITS },
                looping: true,
            }),
    {
        SpriteSheetComponent {
            columns: 1,
            rows: 1,
            frame_count: 1,
            frame_duration: Scalar::from_bits(DEFAULT_FRAME_DURATION_BITS),
            looping: true,
        }
    }
}

/// Movement at a constant velocity.
#[derive(Clone, Copy, Debug, PartialEq, Eq, Structural)]
pub struct LinearMovement {
    pub velocity_x: Scalar,
    pub velocity_y: Scalar,
}

/// Movement along x with a sine wave along y.
#[derive(Clone, Copy, Debug, PartialEq, Eq, Structural)]
pub struct SinusoidalMovement {
    pub amplitude: Scalar,
    pub frequency: Scalar,
    pub direction_x: Scalar,
}

/// Movement on a circle round the origin.
#[derive(Clone, Copy, Debug, PartialEq, Eq, Structural)]
pub struct CircularMovement {
    pub radius: Scalar,
    pub angular_speed: Scalar,
}

/// Movement along x in segments: the entity moves for a while, pauses, and
/// turns as its seed and the number of the segment say.
#[derive(Clone, Copy, Debug, PartialEq, Eq, Structural)]
pub struct HorizontalRandomMovement {
    /// Units per second.
    pub speed: Scalar,
    /// Seconds of movement in a segment.
    pub move_duration: Scalar,
    /// Seconds of pause in a segment.
    pub pause_duration: Scalar,
    pub seed: u32,
}

impl LinearMovement {
    /// The strategy's name.
    pub fn name(&self) -> (name: &'static str)
        ensures
            name@ == "Linear"@,
    {
        "Linear"
    }
}

impl SinusoidalMovement {
    /// The strategy's name.
    pub fn name(&self) -> (name: &'static str)
        ensures
            name@ == "Sinusoidal"@,
    {
        "Sinusoidal"
    }
}

impl CircularMovement {
    /// The strategy's name.
    pub fn name(&self) -> (name: &'static str)
        ensures
            name@ == "Circular"@,
    {
        "Circular"
    }
}

/// The hash of a seed and a segment number: each times its multiplier,
/// added, all in 32 bits.
pub open spec fn segment_hash(seed: u32, segment: u32) -> u32 {
    ((seed * SEED_MULTIPLIER + segment * SEGMENT_MULTIPLIER) % 0x1_0000_0000) as u32
}

/// The direction of a segment: one if the hash is even, minus one if it is
/// odd.
pub open spec fn segment_direction(seed: u32, segment: u32) -> Scalar {
    if segment_hash(seed, segment) % 2 == 0 {
        Scalar { bits: ONE_BITS }
    } else {
        Scalar { bits: MINUS_ONE_BITS }
    }
}

/// Both multipliers are odd, so the hash is even exactly when seed and
/// segment number are both even or both odd: the direction turns with
/// every segment.
pub proof fn lemma_direction_alternates(seed: u32, segment: u32)
    ensures
        (segment_hash(seed, segment) % 2 == 0) == ((seed + segment) % 2 == 0),
        segment < u32::MAX ==> segment_direction(seed, (segment + 1) as u32) == segment_direction(
            seed,
            segment,
        ).spec_negated(),
{
    lemma_hash_parity(seed, segment);
    if segment < u32::MAX {
        lemma_hash_parity(seed, (segment + 1) as u32);
        assert(0x3F80_0000u32 ^ 0x8000_0000u32 == 0xBF80_0000u32) by (bit_vector);
        assert(0xBF80_0000u32 ^ 0x8000_0000u32 == 0x3F80_0000u32) by (bit_vector);
    }
}

/// The parity of the hash is the parity of seed plus segment number.
proof fn lemma_hash_parity(seed: u32, segment: u32)
    ensures
        (segment_hash(seed, segment) % 2 == 0) == ((seed + segment) % 2 == 0),
{
    let sum: int = seed * SEED_MULTIPLIER + segment * SEGMENT_MULTIPLIER;
    assert(sum == seed * 2654435761 + segment * 1597334677);
    assert((sum % 0x1_0000_0000) % 2 == sum % 2);
    assert(sum % 2 == (seed + segment) % 2);
}

impl HorizontalRandomMovement {
    /// The strategy's name.
    pub fn name(&self) -> (name: &'static str)
        ensures
            name@ == "HorizontalRandom"@,
    {
        "HorizontalRandom"
    }

    /// The direction in which the entity moves in segment `segment`: one or
    /// minus one.
    pub fn direction_for_segment(&self, segment: u32) -> (direction: Scalar)
        ensures
            direction == segment_direction(self.seed, segment),
    {
        let hash = self.seed.wrapping_mul(SEED_MULTIPLIER).wrapping_add(
            segment.wrapping_mul(SEGMENT_MULTIPLIER),
        );
        proof {
            lemma_wrapped_hash(self.seed, segment);
        }
        if hash % 2 == 0 {
            Scalar::from_bits(ONE_BITS)
        } else {
            Scalar::from_bits(MINUS_ONE_BITS)
        }
    }
}

/// Wrapping the two products and then their sum gives the hash.
proof fn lemma_wrapped_hash(seed: u32, segment: u32)
    ensures
        vstd::wrapping::u32_specs::wrapping_add(
            vstd::wrapping::u32_specs::wrapping_mul(seed, SEED_MULTIPLIER),
            vstd::wrapping::u32_specs::wrapping_mul(segment, SEGMENT_MULTIPLIER),
        ) == segment_hash(seed, segment),
{
    let a: int = seed * 2654435761;
    let b: int = segment * 1597334677;
    let m: int = 0x1_0000_0000;
    assert(((a % m) + (b % m)) % m == (a + b) % m) by {
        vstd::arithmetic::div_mod::lemma_add_mod_noop(a, b, m);
    }
}

} // verus!
