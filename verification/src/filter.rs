//! Messages that describe a filter to the driver.

use vstd::prelude::*;
use crate::passthru::{frame, MsgView, PassThruMsg, ProtocolKind, ISO15765, MAX_STANDARD_ID};

verus! {

/// Mask that compares all 11 bits of a standard identifier.
pub const STANDARD_ID_MASK: u32 = 0x7FF;

/// Mask that compares all 29 bits of an extended identifier.
pub const EXTENDED_ID_MASK: u32 = 0x1FFFFFFF;

/// First byte of a flow-control frame that tells the sender to go on.
pub const FLOW_CONTROL_CONTINUE: u8 = 0x30;

/// Length to which the data of a flow-control frame are padded.
pub const FLOW_CONTROL_PADDED_LEN: usize = 8;

/// The mask that compares every bit of `id`: 29 bits where `id` is above `0x7FF`,
/// 11 bits otherwise.
pub open spec fn full_mask(id: u32) -> u32 {
    if id > MAX_STANDARD_ID {
        EXTENDED_ID_MASK
    } else {
        STANDARD_ID_MASK
    }
}

/// Returns the mask that compares every bit of `id`.
pub fn id_mask(id: u32) -> (r: u32)
    ensures
        r == full_mask(id),
{
    if id > MAX_STANDARD_ID {
        EXTENDED_ID_MASK
    } else {
        STANDARD_ID_MASK
    }
}

/// Mask and pattern of a pass filter.
#[derive(Debug, Clone, PartialEq, Eq)]
pub struct PassFilter {
    pub mask: PassThruMsg,
    pub pattern: PassThruMsg,
}

/// Builds the two messages of a pass filter: frames without payload and without
/// flags of their own, to the mask and to the pattern identifier.
pub fn pass_filter(protocol: ProtocolKind, mask_id: u32, pattern_id: u32) -> (r: PassFilter)
    ensures
        r.mask@ == frame(protocol.spec_protocol_id(), mask_id, Seq::empty(), 0),
        r.pattern@ == frame(protocol.spec_protocol_id(), pattern_id, Seq::empty(), 0),
{
    let none: [u8; 0] = [];
    let mask = PassThruMsg::new(protocol.protocol_id(), mask_id, none.as_slice(), 0);
    let pattern = PassThruMsg::new(protocol.protocol_id(), pattern_id, none.as_slice(), 0);
    assert(none@ =~= Seq::<u8>::empty());
    PassFilter { mask, pattern }
}

/// The data of a flow-control frame: the continue byte, the block size and the
/// separation time; with a pad value, that value up to a length of eight.
pub open spec fn flow_control_bytes(block_size: u8, st_min: u8, pad_value: Option<u8>) -> Seq<u8> {
    match pad_value {
        Some(pad) => seq![FLOW_CONTROL_CONTINUE, block_size, st_min, pad, pad, pad, pad, pad],
        None => seq![FLOW_CONTROL_CONTINUE, block_size, st_min],
    }
}

/// Builds the data of a flow-control frame.
pub fn flow_control_data(block_size: u8, st_min: u8, pad_value: Option<u8>) -> (data: Vec<u8>)
    ensures
        data@ == flow_control_bytes(block_size, st_min, pad_value),
{
    let mut data: Vec<u8> = Vec::new();
    data.push(FLOW_CONTROL_CONTINUE);
    data.push(block_size);
    data.push(st_min);
    if let Some(pad) = pad_value {
        while data.len() < FLOW_CONTROL_PADDED_LEN
            invariant
                3 <= data@.len() <= FLOW_CONTROL_PADDED_LEN,
                data@[0] == FLOW_CONTROL_CONTINUE,
                data@[1] == block_size,
                data@[2] == st_min,
                forall|i: int| 3 <= i < data@.len() ==> data@[i] == pad,
            decreases FLOW_CONTROL_PADDED_LEN - data@.len(),
        {
            data.push(pad);
        }
    }
    assert(data@ =~= flow_control_bytes(block_size, st_min, pad_value));
    data
}

/// The three messages of a flow-control filter.
#[derive(Debug, Clone, PartialEq, Eq)]
pub struct FlowControlFilter {
    pub mask: PassThruMsg,
    pub pattern: PassThruMsg,
    pub flow_control: PassThruMsg,
}

/// Builds the messages of a flow-control filter for a tester that sends on
/// `tx_id` and an ECU that answers on `rx_id`: mask and pattern select the
/// answers, with every bit of `rx_id` compared; the flow-control frame goes out
/// on `tx_id`.
pub fn flow_control_filter(
    tx_id: u32,
    rx_id: u32,
    block_size: u8,
    st_min: u8,
    pad_value: Option<u8>,
) -> (r: FlowControlFilter)
    ensures
        r.mask@ == frame(ISO15765, full_mask(rx_id), Seq::empty(), 0),
        r.pattern@ == frame(ISO15765, rx_id, Seq::empty(), 0),
        r.flow_control@ == frame(
            ISO15765,
            tx_id,
            flow_control_bytes(block_size, st_min, pad_value),
            0,
        ),
{
    let none: [u8; 0] = [];
    assert(none@ =~= Seq::<u8>::empty());
    let mask = PassThruMsg::new(ISO15765, id_mask(rx_id), none.as_slice(), 0);
    let pattern = PassThruMsg::new(ISO15765, rx_id, none.as_slice(), 0);
    let data = flow_control_data(block_size, st_min, pad_value);
    let flow_control = PassThruMsg::new(ISO15765, tx_id, data.as_slice(), 0);
    FlowControlFilter { mask, pattern, flow_control }
}

/// The frame that a request to `id` is sent in: a CAN frame on a CAN channel, an
/// ISO 15765 frame without flags of its own on an ISO 15765 channel.
pub open spec fn request_frame(protocol: ProtocolKind, id: u32, payload: Seq<u8>) -> MsgView {
    frame(protocol.spec_protocol_id(), id, payload, 0)
}

/// Builds the frame that a request to `id` is sent in.
pub fn request_message(protocol: ProtocolKind, id: u32, data: &[u8]) -> (msg: PassThruMsg)
    ensures
        msg@ == request_frame(protocol, id, data@),
{
    match protocol {
        ProtocolKind::Can => PassThruMsg::new_can(id, data),
        ProtocolKind::Iso15765 => PassThruMsg::new_iso15765(id, data, 0),
    }
}

} // verus!
