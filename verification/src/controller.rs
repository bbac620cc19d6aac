//! The capability shared by every supported DMX512 controller.

use vstd::prelude::*;

verus! {

/// One complete transmission of a frame to a hardware device.
///
/// An implementation performs exactly one device transmission attempt per
/// call, carrying all 512 channel values as one logical unit; a failed or
/// timed-out transfer is a fatal fault. The implementations perform USB
/// I/O and therefore live with the application, not in this crate.
pub trait Controller {
    /// Transmits the 512 channel values of `data` to the device.
    fn send(&mut self, data: &[u8; 512]);
}

} // verus!
