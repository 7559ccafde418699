//! Top-level BSP file for the Raspberry Pi 3.

use vstd::prelude::*;

pub mod memory;

verus! {

/// Board identification.
pub fn board_name() -> (r: &'static str)
    ensures
        r@ == "Raspberry Pi 3"@,
{
    "Raspberry Pi 3"
}

} // verus!
