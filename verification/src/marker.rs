//! Markers that tell what a device can do.

use crate::ic;
use crate::private;
use vstd::prelude::*;

verus! {

/// Devices that carry a manufacturer and part ID and the data registers.
pub trait WithDeviceId: private::Sealed {

}

impl WithDeviceId for ic::Ltr559 {

}

} // verus!
