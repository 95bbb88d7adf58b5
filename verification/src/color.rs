//! Color payloads.
//!
//! The renderer works with high-dynamic-range float channels; the logic here
//! never computes with them, it only carries them between meshes, materials
//! and map files. Each channel is therefore held as the raw bit pattern of
//! the host engine's channel value, which round-trips exactly.

use vstd::prelude::*;

verus! {

/// One color, four channels, each the bit pattern of the engine's channel
/// value.
#[derive(PartialEq, Eq, Structural, Clone, Copy, Debug)]
pub struct Rgba {
    pub red: u32,
    pub green: u32,
    pub blue: u32,
    pub alpha: u32,
}

impl Rgba {
    pub fn new(red: u32, green: u32, blue: u32, alpha: u32) -> (r: Rgba)
        ensures
            r == (Rgba { red, green, blue, alpha }),
    {
        Rgba { red, green, blue, alpha }
    }
}

} // verus!
