//! IC markers

use vstd::prelude::*;

verus! {

/// Used for Ltr559 devices
pub struct Ltr559(());

} // verus!
