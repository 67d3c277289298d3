//! The texels of the built-in diffuse texture.
//!
//! The texture is a square of 256 by 256 RGBA texels: red rises from left
//! to right, green from top to bottom, and blue weaves the two coordinates
//! into a checkered pattern. Uploading it is the host's part.

use vstd::prelude::*;

verus! {

/// The side of the texture, in texels.
pub const TEXTURE_SIDE: u32 = 256;

/// The number of bytes of one texel.
pub const TEXEL_BYTES: u32 = 4;

/// The number of bytes of the whole texture.
pub const TEXTURE_BYTES: usize = 262144;

/// One RGBA texel.
#[derive(Clone, Copy, Debug, PartialEq, Eq, Structural)]
pub struct Texel {
    pub r: u8,
    pub g: u8,
    pub b: u8,
    pub a: u8,
}

/// The ramp along one axis: coordinate `i` of 256, scaled to 255 and cut
/// off to a whole number.
pub open spec fn ramp(i: u8) -> u8 {
    (i * 255 / 256) as u8
}

/// The weave of two coordinates: their exclusive or, times four, kept to
/// eight bits.
pub open spec fn weave(x: u8, y: u8) -> u8 {
    (((x ^ y) as nat * 4) % 256) as u8
}

/// The texel at column `x` of row `y`.
pub open spec fn texel_at(x: u8, y: u8) -> Texel {
    Texel { r: ramp(x), g: ramp(y), b: weave(x, y), a: 255 }
}

/// The ramp is zero at the left edge and one less than the coordinate
/// everywhere else, so it never reaches 255.
pub proof fn lemma_ramp(i: u8)
    ensures
        i == 0 ==> ramp(i) == 0,
        i > 0 ==> ramp(i) == i - 1,
        ramp(i) < 255,
{
}

/// The texel at column `x` of row `y`.
pub fn texel(x: u8, y: u8) -> (t: Texel)
    ensures
        t == texel_at(x, y),
{
    let r: u16 = (x as u16) * 255 / 256;
    let g: u16 = (y as u16) * 255 / 256;
    Texel { r: r as u8, g: g as u8, b: (x ^ y).wrapping_mul(4), a: 255 }
}

/// The bytes of the whole texture, row by row, four bytes a texel.
pub fn checker_texels() -> (data: Vec<u8>)
    ensures
        data@.len() == TEXTURE_BYTES,
        forall|j: int|
            #![trigger data@[4 * j]]
            0 <= j < 65536 ==> data@[4 * j] == texel_at((j % 256) as u8, (j / 256) as u8).r
                && data@[4 * j + 1] == texel_at((j % 256) as u8, (j / 256) as u8).g && data@[4 * j
                + 2] == texel_at((j % 256) as u8, (j / 256) as u8).b && data@[4 * j + 3] == 255,
{
    let mut data: Vec<u8> = Vec::with_capacity(TEXTURE_BYTES);
    let mut y: u32 = 0;
    while y < TEXTURE_SIDE
        invariant
            y <= 256,
            data@.len() == 4 * (y * 256),
            forall|j: int|
                #![trigger data@[4 * j]]
                0 <= j < y * 256 ==> data@[4 * j] == texel_at((j % 256) as u8, (j / 256) as u8).r
                    && data@[4 * j + 1] == texel_at((j % 256) as u8, (j / 256) as u8).g && data@[4
                    * j + 2] == texel_at((j % 256) as u8, (j / 256) as u8).b && data@[4 * j + 3]
                    == 255,
        decreases 256 - y,
    {
        let mut x: u32 = 0;
        while x < TEXTURE_SIDE
            invariant
                y < 256,
                x <= 256,
                data@.len() == 4 * (y * 256 + x),
                forall|j: int|
                    #![trigger data@[4 * j]]
                    0 <= j < y * 256 + x ==> data@[4 * j] == texel_at(
                        (j % 256) as u8,
                        (j / 256) as u8,
                    ).r && data@[4 * j + 1] == texel_at((j % 256) as u8, (j / 256) as u8).g
                        && data@[4 * j + 2] == texel_at((j % 256) as u8, (j / 256) as u8).b
                        && data@[4 * j + 3] == 255,
            decreases 256 - x,
        {
            let t = texel(x as u8, y as u8);
            let ghost before = data@;
            let ghost at: int = y * 256 + x;
            data.push(t.r);
            data.push(t.g);
            data.push(t.b);
            data.push(t.a);
            proof {
                assert(at % 256 == x && at / 256 == y);
                assert forall|j: int|
                    #![trigger data@[4 * j]]
                    0 <= j < at + 1 implies data@[4 * j] == texel_at(
                    (j % 256) as u8,
                    (j / 256) as u8,
                ).r && data@[4 * j + 1] == texel_at((j % 256) as u8, (j / 256) as u8).g && data@[4
                    * j + 2] == texel_at((j % 256) as u8, (j / 256) as u8).b && data@[4 * j + 3]
                    == 255 by {
                    if j < at {
                        assert(data@[4 * j] == before[4 * j]);
                        assert(data@[4 * j + 1] == before[4 * j + 1]);
                        assert(data@[4 * j + 2] == before[4 * j + 2]);
                        assert(data@[4 * j + 3] == before[4 * j + 3]);
                    }
                }
            }
            x += 1;
        }
        y += 1;
    }
    data
}

/// The byte of channel `channel` of the texel at column `x` of row `y`
/// stands at `4 * (256 * y + x) + channel`.
pub open spec fn texel_offset(x: u8, y: u8, channel: int) -> int {
    4 * (256 * y + x) + channel
}

/// Reading the texture by column and row: the four bytes at a texel's
/// offset are its red, green, blue and alpha.
pub proof fn lemma_texel_bytes(data: Seq<u8>, x: u8, y: u8)
    requires
        data.len() == TEXTURE_BYTES,
        forall|j: int|
            #![trigger data[4 * j]]
            0 <= j < 65536 ==> data[4 * j] == texel_at((j % 256) as u8, (j / 256) as u8).r
                && data[4 * j + 1] == texel_at((j % 256) as u8, (j / 256) as u8).g && data[4 * j
                + 2] == texel_at((j % 256) as u8, (j / 256) as u8).b && data[4 * j + 3] == 255,
    ensures
        data[texel_offset(x, y, 0)] == texel_at(x, y).r,
        data[texel_offset(x, y, 1)] == texel_at(x, y).g,
        data[texel_offset(x, y, 2)] == texel_at(x, y).b,
        data[texel_offset(x, y, 3)] == texel_at(x, y).a,
{
    let j: int = 256 * y + x;
    assert(j % 256 == x && j / 256 == y);
    assert(data[4 * j] == texel_at((j % 256) as u8, (j / 256) as u8).r);
}

} // verus!
