//! Control-transfer encoder and device constants for the Anyma uDMX
//! controller.
//!
//! The device takes one USB control transfer per frame: host-to-device,
//! vendor request type, device recipient, a fixed request code, and the
//! 512 raw channel bytes verbatim as the transfer payload, so the wire
//! length `wLength` equals 512. There is no further framing, checksum or
//! acknowledgment.

use vstd::prelude::*;

verus! {

/// USB vendor identifier the device enumerates with.
pub const VENDOR_ID: u16 = 0x16c0;

/// USB product identifier the device enumerates with.
pub const PRODUCT_ID: u16 = 0x05dc;

/// Interface claimed exclusively for the process lifetime.
pub const INTERFACE: u8 = 0;

/// Vendor request code that sets a range of channels.
pub const REQUEST_SET_CHANNEL_RANGE: u8 = 0x02;

/// `wValue` of the control transfer.
pub const REQUEST_VALUE: u16 = 0;

/// `wIndex` of the control transfer.
pub const REQUEST_INDEX: u16 = 0;

/// Request-type byte of the transfer: direction host-to-device, vendor
/// request type, device recipient.
pub const REQUEST_TYPE_VENDOR_OUT: u8 = 0x40;

/// Transfer timeout in milliseconds; exceeding it is a fatal fault.
pub const TIMEOUT_MS: u64 = 500;

/// Encodes one 512-channel frame as the control-transfer payload: the
/// channel bytes verbatim, so `wLength` — the payload length on the wire —
/// is exactly 512.
pub fn control_payload(channels: &[u8; 512]) -> (payload: Vec<u8>)
    ensures
        payload@ == channels@,
        payload@.len() == 512,
{
    let mut payload: Vec<u8> = Vec::with_capacity(512);
    let mut i: usize = 0;
    while i < 512
        invariant
            i <= 512,
            payload@ == channels@.take(i as int),
        decreases 512 - i,
    {
        payload.push(channels[i]);
        assert(payload@ =~= channels@.take(i + 1));
        i += 1;
    }
    assert(payload@ =~= channels@);
    payload
}

} // verus!
