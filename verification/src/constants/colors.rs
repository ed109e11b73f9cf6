//! The colours of the embeds, as 24-bit RGB.

use vstd::prelude::*;

verus! {

/// The green of a success.
pub const MINT: u32 = 0x4ECCA3;

/// The blue of everything else.
pub const MOON: u32 = 0xA6B1E1;

} // verus!
