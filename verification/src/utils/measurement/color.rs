//! Colors of the display.

use vstd::prelude::*;

verus! {

/// A color in the RGB565 format: five bits of red, six of green and five of
/// blue, from the highest bit down.
#[derive(Clone, Copy, Debug, PartialEq, Eq, Structural, Hash)]
pub struct ColorRGB565(pub u16);

/// Calls `u16::to_ne_bytes`, which gives the two bytes of the integer in the
/// order in which the machine keeps them in memory. Which order that is
/// depends on the machine, so the contract says what holds on every machine:
/// the two bytes are the low and the high byte of the integer, in one order
/// or the other.
#[verifier::external_body]
fn u16_to_ne_bytes(value: u16) -> (bytes: [u8; 2])
    ensures
        (bytes@[0] == value % 256 && bytes@[1] == value / 256) || (bytes@[0] == value / 256
            && bytes@[1] == value % 256),
{
    value.to_ne_bytes()
}

impl ColorRGB565 {
    /// White, the default color.
    pub fn white() -> (color: Self)
        ensures
            color.0 == 0xffff,
    {
        ColorRGB565(0xffff)
    }

    /// The two bytes of the color as the machine keeps them in memory: its
    /// low and its high byte, in the order of the machine.
    pub fn as_bytes(&self) -> (bytes: [u8; 2])
        ensures
            (bytes@[0] == self.0 % 256 && bytes@[1] == self.0 / 256) || (bytes@[0] == self.0 / 256
                && bytes@[1] == self.0 % 256),
    {
        u16_to_ne_bytes(self.0)
    }
}

impl Default for ColorRGB565 {
    /// The default color, which is white.
    fn default() -> (color: Self)
        ensures
            color.0 == 0xffff,
    {
        Self::white()
    }
}

} // verus!
