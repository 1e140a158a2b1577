//! Colours, with each channel held as an integer number of thousandths.

use crate::random::random_in_range;
use vstd::prelude::*;

verus! {

/// A full channel: one thousand thousandths.
pub const CHANNEL_FULL: u16 = 1000;

/// The least value of a channel of a colour drawn by [`random_vivid`].
pub const VIVID_FLOOR: u16 = 200;

/// Red, green, blue and opacity, each in thousandths of full intensity.
#[derive(Clone, Copy, Debug, PartialEq, Eq, Structural)]
pub struct Color {
    pub r: u16,
    pub g: u16,
    pub b: u16,
    pub a: u16,
}

impl Color {
    /// The green of a snake that has not eaten yet.
    pub open spec fn spec_snake() -> Color {
        Color { r: 100, g: 900, b: 100, a: CHANNEL_FULL }
    }

    #[verifier::when_used_as_spec(spec_snake)]
    pub fn snake() -> (c: Color)
        ensures
            c == Color::spec_snake(),
    {
        Color { r: 100, g: 900, b: 100, a: CHANNEL_FULL }
    }

    /// An opaque colour none of whose channels is dim or saturated: the
    /// colours a snake takes on when it grows.
    pub open spec fn is_vivid(self) -> bool {
        &&& VIVID_FLOOR <= self.r < CHANNEL_FULL
        &&& VIVID_FLOOR <= self.g < CHANNEL_FULL
        &&& VIVID_FLOOR <= self.b < CHANNEL_FULL
        &&& self.a == CHANNEL_FULL
    }
}

/// Draws one channel of a vivid colour.
fn random_channel() -> (c: u16)
    ensures
        VIVID_FLOOR <= c < CHANNEL_FULL,
{
    let v: i32 = random_in_range(VIVID_FLOOR as i32, CHANNEL_FULL as i32);
    v as u16
}

/// Draws an opaque colour with every channel between a fifth and full.
pub fn random_vivid() -> (c: Color)
    ensures
        c.is_vivid(),
{
    let r: u16 = random_channel();
    let g: u16 = random_channel();
    let b: u16 = random_channel();
    Color { r, g, b, a: CHANNEL_FULL }
}

} // verus!
