//! Integer vectors in physical pixels.

use vstd::prelude::*;

verus! {

/// A pair of unsigned values: a size in pixels.
#[derive(Clone, Copy, Debug, PartialEq, Eq, Structural)]
pub struct UVec2 {
    pub x: u32,
    pub y: u32,
}

/// A pair of signed values: a position in pixels.
#[derive(Clone, Copy, Debug, PartialEq, Eq, Structural)]
pub struct IVec2 {
    pub x: i32,
    pub y: i32,
}

/// The value of `size as i32`: sizes from `2^31` on come out negative.
pub open spec fn as_signed(size: u32) -> int {
    if size <= i32::MAX {
        size as int
    } else {
        size - 0x1_0000_0000
    }
}

/// Half of `value`, rounded towards zero.
pub open spec fn half(value: int) -> int {
    if value >= 0 {
        value / 2
    } else {
        -((-value) / 2)
    }
}

impl UVec2 {
    pub fn new(x: u32, y: u32) -> (result: UVec2)
        ensures
            result == (UVec2 { x, y }),
    {
        UVec2 { x, y }
    }

    /// The middle of an area of this size, as a position in it.
    pub open spec fn spec_center(self) -> IVec2 {
        IVec2 { x: (self.x / 2) as i32, y: (self.y / 2) as i32 }
    }

    /// Half of each component, rounded down, as a position.
    pub fn center(self) -> (result: IVec2)
        ensures
            result == self.spec_center(),
            result.x == self.x as int / 2,
            result.y == self.y as int / 2,
    {
        IVec2 { x: (self.x / 2) as i32, y: (self.y / 2) as i32 }
    }
}

impl IVec2 {
    pub fn new(x: i32, y: i32) -> (result: IVec2)
        ensures
            result == (IVec2 { x, y }),
    {
        IVec2 { x, y }
    }
}

/// Reads a size as a signed number, wrapping where it is `2^31` or more.
pub fn to_signed(size: u32) -> (result: i32)
    ensures
        result == as_signed(size),
{
    let result = size as i32;
    assert(size <= 0x7fff_ffffu32 ==> result == size) by (bit_vector)
        requires
            result == size as i32,
    ;
    assert(size > 0x7fff_ffffu32 ==> result == size - 0x1_0000_0000) by (bit_vector)
        requires
            result == size as i32,
    ;
    result
}

/// A size as a signed number is in the range of 32 bits, and is the size itself, or
/// the size less `2^32`.
pub proof fn law_signed_sizes(size: u32)
    ensures
        -0x8000_0000 <= as_signed(size) < 0x8000_0000,
        as_signed(size) == size || as_signed(size) == size - 0x1_0000_0000,
{
}

/// Twice the half is the value, or is one nearer to zero.
pub proof fn law_half(value: int)
    ensures
        value >= 0 ==> 2 * half(value) <= value <= 2 * half(value) + 1,
        value <= 0 ==> 2 * half(value) - 1 <= value <= 2 * half(value),
{
}

/// The middle of an area is as far from its start as from its end, or one pixel
/// nearer, in each direction.
pub proof fn law_middle(size: UVec2)
    ensures
        2 * size.spec_center().x <= size.x <= 2 * size.spec_center().x + 1,
        2 * size.spec_center().y <= size.y <= 2 * size.spec_center().y + 1,
{
}

} // verus!
