//! Wire-message encoder and device constants for the Eurolite USB-DMX512-PRO
//! controller.
//!
//! The device takes a framed message over a USB bulk transfer: a start
//! marker, a label byte naming the message type, a little-endian length
//! field, a DMX start code, the 512 raw channel bytes, and an end marker.
//! The length field counts the DMX start code and the channel bytes (513),
//! not the markers and not the length field itself.

use vstd::prelude::*;

verus! {

/// USB vendor identifier the device enumerates with.
pub const VENDOR_ID: u16 = 0x04d8;

/// USB product identifier the device enumerates with.
pub const PRODUCT_ID: u16 = 0xfa63;

/// Bulk output endpoint the framed message is written to.
pub const ENDPOINT: u8 = 0x02;

/// Interface claimed for the bulk endpoint; on this device it is
/// interface 1, not the control interface 0.
pub const INTERFACE: u8 = 1;

/// Start-of-message marker byte.
pub const FRAME_START_OF_MESSAGE: u8 = 0x7e;

/// End-of-message marker byte.
pub const FRAME_END_OF_MESSAGE: u8 = 0x7e;

/// Label byte identifying the message as "output DMX data".
pub const FRAME_DMX_LABEL: u8 = 6;

/// DMX start code for standard dimmer data.
pub const DMX_START_CODE: u8 = 0;

/// Value of the length field: the DMX start code plus the 512 channel
/// bytes, excluding the two markers and the length field itself.
pub const PAYLOAD_LENGTH: u16 = 513;

/// Transfer timeout in milliseconds; exceeding it is a fatal fault.
pub const TIMEOUT_MS: u64 = 500;

/// The framed wire message for one frame of channel values: marker, label,
/// little-endian length field, DMX start code, the channel bytes in order,
/// and the closing marker.
pub open spec fn wire_message(channels: Seq<u8>) -> Seq<u8> {
    seq![
        FRAME_START_OF_MESSAGE,
        FRAME_DMX_LABEL,
        (PAYLOAD_LENGTH % 256) as u8,
        (PAYLOAD_LENGTH / 256) as u8,
        DMX_START_CODE,
    ] + channels + seq![FRAME_END_OF_MESSAGE]
}

/// Framing law: for any 512-channel frame the wire message is exactly 518
/// bytes — the start marker, the label, the little-endian length field
/// holding 513 (one DMX start code plus 512 channel bytes), the DMX start
/// code, the channel bytes unmodified and in order, and the end marker.
pub proof fn lemma_wire_message_layout(channels: Seq<u8>)
    requires
        channels.len() == 512,
    ensures
        wire_message(channels).len() == 518,
        wire_message(channels)[0] == FRAME_START_OF_MESSAGE,
        wire_message(channels)[1] == FRAME_DMX_LABEL,
        wire_message(channels)[2] == 0x01,
        wire_message(channels)[3] == 0x02,
        wire_message(channels)[2] == PAYLOAD_LENGTH % 256,
        wire_message(channels)[3] == PAYLOAD_LENGTH / 256,
        wire_message(channels)[4] == DMX_START_CODE,
        forall|i: int| 0 <= i < 512 ==> wire_message(channels)[5 + i] == channels[i],
        wire_message(channels)[517] == FRAME_END_OF_MESSAGE,
{
}

/// Encodes one 512-channel frame into the 518-byte message sent over the
/// bulk endpoint.
pub fn encode(channels: &[u8; 512]) -> (msg: Vec<u8>)
    ensures
        msg@ == wire_message(channels@),
        msg@.len() == 518,
{
    let mut msg: Vec<u8> = Vec::with_capacity(518);
    msg.push(FRAME_START_OF_MESSAGE);
    msg.push(FRAME_DMX_LABEL);
    msg.push((PAYLOAD_LENGTH % 256) as u8);
    msg.push((PAYLOAD_LENGTH / 256) as u8);
    msg.push(DMX_START_CODE);
    let mut i: usize = 0;
    while i < 512
        invariant
            i <= 512,
            msg@.len() == 5 + i,
            msg@ == wire_message(channels@).take(5 + i),
        decreases 512 - i,
    {
        msg.push(channels[i]);
        assert(msg@ =~= wire_message(channels@).take(5 + i + 1));
        i += 1;
    }
    msg.push(FRAME_END_OF_MESSAGE);
    assert(msg@ =~= wire_message(channels@));
    msg
}

} // verus!
