//! Keeps the marker traits closed to other crates.

use crate::ic;
use vstd::prelude::*;

verus! {

/// Implemented for the IC markers of this crate and for nothing else.
pub trait Sealed {

}

impl Sealed for ic::Ltr559 {

}

} // verus!
