//! Small shared value types and bit-level helpers.

use vstd::prelude::*;

verus! {

/// Scale of the fixed-point scalars used throughout the simulation state:
/// one unit of a continuous quantity is `FX` ticks of an `i64`.
pub const FX: i64 = 1_000_000;

/// A width and a height, in whatever unit the caller works in.
#[derive(Copy, Clone, PartialEq, Eq, Structural, Debug)]
pub struct Size2D {
    pub width: u32,
    pub height: u32,
}

/// Cycling through an enumeration's variants in a fixed order, wrapping at
/// both ends. Each enum implements it by explicit case analysis, so the
/// order is written out rather than derived from numeric casts.
pub trait NextEnumVariant: Sized {
    /// The variant after `self` in the fixed order.
    spec fn spec_next_variant(self) -> Self;

    /// The variant before `self` in the fixed order.
    spec fn spec_previous_variant(self) -> Self;

    fn next_enum_variant(&mut self)
        ensures
            *final(self) == old(self).spec_next_variant(),
    ;

    fn previous_enum_variant(&mut self)
        ensures
            *final(self) == old(self).spec_previous_variant(),
    ;
}

/// The four bytes of `x`, most significant first.
pub fn transform_u32_to_array_of_u8(x: u32) -> (r: [u8; 4])
    ensures
        r[0] == ((x >> 24) & 0xff) as u8,
        r[1] == ((x >> 16) & 0xff) as u8,
        r[2] == ((x >> 8) & 0xff) as u8,
        r[3] == (x & 0xff) as u8,
{
    let b1: u8 = ((x >> 24) & 0xff) as u8;
    let b2: u8 = ((x >> 16) & 0xff) as u8;
    let b3: u8 = ((x >> 8) & 0xff) as u8;
    let b4: u8 = (x & 0xff) as u8;
    [b1, b2, b3, b4]
}

/// The red, green and blue bytes of a packed `0x00RRGGBB` colour.
/// A host that needs the colour as three unit-range reals divides each
/// channel by 255.
pub fn color_channels_from_int(color: i32) -> (r: [u8; 3])
    ensures
        r[0] == ((color as u32 >> 16) & 0xff) as u8,
        r[1] == ((color as u32 >> 8) & 0xff) as u8,
        r[2] == (color as u32 & 0xff) as u8,
{
    let c = color as u32;
    [((c >> 16) & 0xff) as u8, ((c >> 8) & 0xff) as u8, (c & 0xff) as u8]
}

} // verus!
