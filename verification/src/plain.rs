//! Plain terms in which the laws of the operations are stated.

use vstd::prelude::*;

verus! {

/// What is stored, or `default` where nothing is.
pub open spec fn given<T>(stored: Option<T>, default: T) -> T {
    if stored is Some {
        stored->0
    } else {
        default
    }
}

/// Whether a number can be held in 128 bits, with its sign.
pub open spec fn in_range(x: int) -> bool {
    -0x8000_0000_0000_0000_0000_0000_0000_0000 <= x
        <= 0x7fff_ffff_ffff_ffff_ffff_ffff_ffff_ffff
}

} // verus!
