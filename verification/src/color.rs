//! The color value type shared by every component.

use vstd::prelude::*;

verus! {

/// An RGB color: three unsigned 8-bit channels.  A plain value with no
/// identity of its own; components compare colors channel by channel.
#[derive(Clone, Copy, PartialEq, Eq, Structural, Debug)]
pub struct Rgb {
    pub red: u8,
    pub green: u8,
    pub blue: u8,
}

impl Rgb {
    /// The sentinel the sync loop starts from: black, so that the first
    /// sampled color of a run differs from it wherever a channel exceeds
    /// the threshold.
    pub open spec fn spec_black() -> Rgb {
        Rgb { red: 0, green: 0, blue: 0 }
    }

    /// Builds the sentinel color.
    pub fn black() -> (c: Rgb)
        ensures
            c == Rgb::spec_black(),
    {
        Rgb { red: 0, green: 0, blue: 0 }
    }
}

} // verus!
