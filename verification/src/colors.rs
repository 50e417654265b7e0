//! Immutable color values: three channels in micro-units.

use crate::channel::{
    channel_in_range, channel_inverted, channel_valid, invert_channel,
    lemma_channel_inversion_involutive,
};
use vstd::prelude::*;

verus! {

/// An immutable color: red, green and blue channels in micro-units, each
/// intended to lie in the unit interval but carried through unclamped.
#[derive(Clone, Copy, PartialEq, Eq, Structural, Debug)]
pub struct Color {
    pub red: i64,
    pub green: i64,
    pub blue: i64,
}

/// Whether each channel is a value textual input can produce.
pub open spec fn color_valid(c: Color) -> bool {
    channel_valid(c.red as int) && channel_valid(c.green as int) && channel_valid(c.blue as int)
}

/// Whether each channel is a value the pipeline can hold: a parsed channel or
/// its inversion.
pub open spec fn color_in_range(c: Color) -> bool {
    channel_in_range(c.red as int) && channel_in_range(c.green as int) && channel_in_range(
        c.blue as int,
    )
}

/// Whether `inv` is `c` with every channel inverted by the one's-complement
/// rule.
pub open spec fn color_inverted(c: Color, inv: Color) -> bool {
    inv.red as int == channel_inverted(c.red as int) && inv.green as int == channel_inverted(
        c.green as int,
    ) && inv.blue as int == channel_inverted(c.blue as int)
}

impl Color {
    /// A color from three channel values; no validation or clamping.
    pub fn new(red: i64, green: i64, blue: i64) -> (r: Color)
        ensures
            r == (Color { red, green, blue }),
    {
        Color { red, green, blue }
    }

    /// The color with every channel inverted: `1.0 - c` per channel.
    pub fn inverted(&self) -> (r: Color)
        requires
            color_in_range(*self),
        ensures
            color_inverted(*self, r),
            color_valid(*self) ==> color_in_range(r),
    {
        Color {
            red: invert_channel(self.red),
            green: invert_channel(self.green),
            blue: invert_channel(self.blue),
        }
    }
}

/// Inverting a color twice restores it exactly: if `d` embeds the inverted
/// channels of `c`, and `e` embeds the inverted channels of `d`, then `e` is
/// `c` again.
pub proof fn lemma_color_inversion_involutive(c: Color, d: Color, e: Color)
    requires
        color_inverted(c, d),
        color_inverted(d, e),
    ensures
        e == c,
{
    lemma_channel_inversion_involutive(c.red as int);
    lemma_channel_inversion_involutive(c.green as int);
    lemma_channel_inversion_involutive(c.blue as int);
}

} // verus!
