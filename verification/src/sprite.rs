//! Sprite sheets: which frame an animation shows, and where that frame
//! lies on the sheet.
//!
//! A sheet is a grid of `rows` by `columns` frames, numbered row by row,
//! of which the first `frame_count` are used. Turning elapsed time into a
//! count of frame durations, and a cell into texture coordinates, takes
//! rounding and is the host's part.

use vstd::prelude::*;
use vstd::arithmetic::div_mod::lemma_fundamental_div_mod;
use crate::scalar::Scalar;

verus! {

/// Bit pattern of the default duration of a frame, 0.1 seconds.
pub const DEFAULT_FRAME_DURATION_BITS: u32 = 0x3DCC_CCCD;

/// A position on a sprite sheet.
#[derive(Clone, Copy, Debug, PartialEq, Eq, Structural)]
pub struct FrameCell {
    pub col: u32,
    pub row: u32,
}

/// The frame layout of a sprite sheet.
#[derive(Clone, Copy, Debug, PartialEq, Eq, Structural)]
pub struct SpriteSheetComponent {
    pub rows: u32,
    pub columns: u32,
    pub frame_count: u32,
    /// Seconds per frame.
    pub frame_duration: Scalar,
    pub looping: bool,
}

/// The frame shown after `index` whole frame durations on a sheet of
/// `frame_count` frames: frame 0 on an empty sheet; on a looping sheet the
/// count wraps round; else it stops at the last frame.
pub open spec fn frame_after(frame_count: u32, looping: bool, index: u32) -> u32 {
    if frame_count == 0 {
        0
    } else if looping {
        index % frame_count
    } else if index < frame_count {
        index
    } else {
        (frame_count - 1) as u32
    }
}

/// The frame shown after `index` whole frame durations.
pub fn frame_for_index(frame_count: u32, looping: bool, index: u32) -> (frame: u32)
    ensures
        frame == frame_after(frame_count, looping, index),
        frame_count > 0 ==> frame < frame_count,
{
    if frame_count == 0 {
        0
    } else if looping {
        index % frame_count
    } else if index < frame_count {
        index
    } else {
        frame_count - 1
    }
}

/// The cell of frame `frame` on a sheet of `columns` columns.
pub open spec fn cell_of(columns: u32, frame: u32) -> FrameCell {
    FrameCell { col: frame % columns, row: frame / columns }
}

/// A frame that is among the first `rows * columns` lies on the sheet.
pub proof fn lemma_cell_on_sheet(rows: u32, columns: u32, frame: u32)
    requires
        columns > 0,
        frame < rows * columns,
    ensures
        cell_of(columns, frame).col < columns,
        cell_of(columns, frame).row < rows,
        cell_of(columns, frame).row * columns + cell_of(columns, frame).col == frame,
{
    let f = frame as int;
    let c = columns as int;
    lemma_fundamental_div_mod(f, c);
    let q = f / c;
    let r = f % c;
    assert(q < rows) by (nonlinear_arith)
        requires
            f == c * q + r,
            0 <= r,
            f < rows * c,
            0 < c,
    ;
    assert(q * c == c * q) by (nonlinear_arith);
}

impl SpriteSheetComponent {
    /// A sheet of `rows` by `columns` frames.
    pub fn new(rows: u32, columns: u32, frame_count: u32, frame_duration: Scalar, looping: bool) -> (sheet:
        SpriteSheetComponent)
        ensures
            sheet == (SpriteSheetComponent { rows, columns, frame_count, frame_duration, looping }),
    {
        SpriteSheetComponent { rows, columns, frame_count, frame_duration, looping }
    }

    /// The frame shown after `index` whole frame durations.
    pub fn frame_for_index(&self, index: u32) -> (frame: u32)
        ensures
            frame == frame_after(self.frame_count, self.looping, index),
            self.frame_count > 0 ==> frame < self.frame_count,
    {
        frame_for_index(self.frame_count, self.looping, index)
    }

    /// The cell that `frame` is drawn from in spec form: frame numbers wrap
    /// round the frame count. A sheet without frames or without columns
    /// has no cells.
    pub open spec fn spec_cell_for_frame(self, frame: u32) -> Option<FrameCell> {
        if self.frame_count == 0 || self.columns == 0 {
            None
        } else {
            Some(cell_of(self.columns, frame % self.frame_count))
        }
    }

    /// The cell that `frame` is drawn from.
    pub fn cell_for_frame(&self, frame: u32) -> (cell: Option<FrameCell>)
        ensures
            cell == self.spec_cell_for_frame(frame),
    {
        if self.frame_count == 0 || self.columns == 0 {
            None
        } else {
            let wrapped = frame % self.frame_count;
            Some(FrameCell { col: wrapped % self.columns, row: wrapped / self.columns })
        }
    }
}

impl Default for SpriteSheetComponent {
    /// A looping sheet of a single frame that lasts a tenth of a second.
    fn default() -> (sheet: SpriteSheetComponent)
        ensures
            sheet == (SpriteSheetComponent {
                rows: 1,
                columns: 1,
                frame_count: 1,
                frame_duration: Scalar { bits: DEFAULT_FRAME_DURATION_BITS },
                looping: true,
            }),
    {
        SpriteSheetComponent {
            rows: 1,
            columns: 1,
            frame_count: 1,
            frame_duration: Scalar::from_bits(DEFAULT_FRAME_DURATION_BITS),
            looping: true,
        }
    }
}

/// On a sheet that has room for all its frames, every frame number is
/// drawn from a cell on the sheet.
pub proof fn lemma_frames_on_sheet(sheet: SpriteSheetComponent, frame: u32)
    requires
        sheet.columns > 0,
        sheet.frame_count > 0,
        sheet.frame_count <= sheet.rows * sheet.columns,
    ensures
        sheet.spec_cell_for_frame(frame).is_some(),
        sheet.spec_cell_for_frame(frame).unwrap().col < sheet.columns,
        sheet.spec_cell_for_frame(frame).unwrap().row < sheet.rows,
{
    lemma_cell_on_sheet(sheet.rows, sheet.columns, frame % sheet.frame_count);
}

} // verus!
