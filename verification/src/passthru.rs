//! J2534 pass-through messages as plain values.
//!
//! A message carries a CAN identifier in the first four bytes of its data, most
//! significant byte first, and the payload after it.

use vstd::prelude::*;

verus! {

pub const PASSTHRU_ERR_SUCCESS: i32 = 0;
pub const ERR_TIMEOUT: i32 = 0x00000009;
pub const ERR_BUFFER_EMPTY: i32 = 0x00000042;
pub const CAN: u32 = 0x00000006;
pub const CAN_29BIT_ID: u32 = 0x00000100;
pub const ISO15765: u32 = 0x00000007;

pub const PASS_FILTER: u32 = 0x00000001;
pub const BLOCK_FILTER: u32 = 0x00000002;
pub const FLOW_CONTROL_FILTER: u32 = 0x00000003;

pub const IOCTL_GET_CONFIG: u32 = 0x00000002;
pub const IOCTL_SET_CONFIG: u32 = 0x00000003;
pub const IOCTL_CLEAR_TX_BUFFER: u32 = 0x00000007;
pub const IOCTL_CLEAR_RX_BUFFER: u32 = 0x00000008;

pub const ISO15765_BS: u32 = 0x0000001E;
pub const ISO15765_STMIN: u32 = 0x0000001F;
pub const ISO15765_WFTMAX: u32 = 0x00000020;
pub const ISO15765_PAD_VALUE: u32 = 0x00000021;

/// Largest identifier that fits the 11-bit CAN format.
pub const MAX_STANDARD_ID: u32 = 0x7FF;

/// Number of data bytes in the fixed-size message of the driver interface.
pub const MESSAGE_CAPACITY: usize = 4128;

/// The two protocols a channel is opened for.
#[derive(Debug, Clone, Copy, PartialEq, Eq, Structural)]
pub enum ProtocolKind {
    Can,
    Iso15765,
}

impl ProtocolKind {
    /// The protocol number of the driver interface.
    pub open spec fn spec_protocol_id(self) -> u32 {
        match self {
            ProtocolKind::Can => CAN,
            ProtocolKind::Iso15765 => ISO15765,
        }
    }

    /// Returns the protocol number of the driver interface.
    #[verifier::when_used_as_spec(spec_protocol_id)]
    pub fn protocol_id(self) -> (r: u32)
        ensures
            r == self.spec_protocol_id(),
    {
        match self {
            ProtocolKind::Can => CAN,
            ProtocolKind::Iso15765 => ISO15765,
        }
    }
}

/// The four bytes of an identifier, most significant first.
pub open spec fn id_bytes(id: u32) -> Seq<u8> {
    seq![
        (id / 0x100_0000) as u8,
        (id / 0x1_0000 % 256) as u8,
        (id / 0x100 % 256) as u8,
        (id % 256) as u8,
    ]
}

/// The identifier that four bytes spell, most significant first.
pub open spec fn id_of_bytes(b0: u8, b1: u8, b2: u8, b3: u8) -> u32 {
    (b0 as int * 0x100_0000 + b1 as int * 0x1_0000 + b2 as int * 0x100 + b3 as int) as u32
}

/// The transmit flags of a message to `id`: the flags asked for, with the 29-bit
/// flag added when `id` does not fit 11 bits.
pub open spec fn flags_for_id(id: u32, tx_flags: u32) -> u32 {
    if id > MAX_STANDARD_ID {
        tx_flags | CAN_29BIT_ID
    } else {
        tx_flags
    }
}

/// `len` as the 32-bit size field holds it.
pub open spec fn size_field(len: nat) -> u32 {
    (len % 0x1_0000_0000) as u32
}

/// What a message holds, with its data as a sequence. Both forms of a message
/// have this view.
pub struct MsgView {
    pub protocol_id: u32,
    pub rx_status: u32,
    pub tx_flags: u32,
    pub timestamp: u32,
    pub data_size: u32,
    pub extra_data_index: u32,
    pub data: Seq<u8>,
}

/// A message as the application handles it.
#[derive(Debug, Clone, PartialEq, Eq)]
pub struct PassThruMsg {
    pub protocol_id: u32,
    pub rx_status: u32,
    pub tx_flags: u32,
    pub timestamp: u32,
    pub data_size: u32,
    pub extra_data_index: u32,
    pub data: Vec<u8>,
}

impl View for PassThruMsg {
    type V = MsgView;

    open spec fn view(&self) -> MsgView {
        MsgView {
            protocol_id: self.protocol_id,
            rx_status: self.rx_status,
            tx_flags: self.tx_flags,
            timestamp: self.timestamp,
            data_size: self.data_size,
            extra_data_index: self.extra_data_index,
            data: self.data@,
        }
    }
}

/// The frame to `id` with the given payload: the data are the four identifier
/// bytes followed by the payload, the size field is their number, the 29-bit flag
/// is set for an identifier above `0x7FF`, and the receive-side fields are zero.
pub open spec fn frame(protocol_id: u32, id: u32, payload: Seq<u8>, tx_flags: u32) -> MsgView {
    MsgView {
        protocol_id,
        rx_status: 0,
        tx_flags: flags_for_id(id, tx_flags),
        timestamp: 0,
        data_size: size_field(payload.len() + 4),
        extra_data_index: 0,
        data: id_bytes(id) + payload,
    }
}

impl PassThruMsg {
    /// Builds a CAN frame to `id` with no transmit flags of its own.
    pub fn new_can(id: u32, data: &[u8]) -> (msg: PassThruMsg)
        ensures
            msg@ == frame(CAN, id, data@, 0),
    {
        Self::new(CAN, id, data, 0)
    }

    /// Builds an ISO 15765 frame to `id`.
    pub fn new_iso15765(id: u32, data: &[u8], tx_flags: u32) -> (msg: PassThruMsg)
        ensures
            msg@ == frame(ISO15765, id, data@, tx_flags),
    {
        Self::new(ISO15765, id, data, tx_flags)
    }

    /// Builds a frame: a four-byte identifier, most significant byte first,
    /// followed by the payload.
    pub fn new(protocol_id: u32, id: u32, data: &[u8], tx_flags: u32) -> (msg: PassThruMsg)
        ensures
            msg@ == frame(protocol_id, id, data@, tx_flags),
    {
        let mut msg_data: Vec<u8> = Vec::with_capacity(data.len().saturating_add(4));
        msg_data.push((id / 0x100_0000) as u8);
        msg_data.push((id / 0x1_0000 % 256) as u8);
        msg_data.push((id / 0x100 % 256) as u8);
        msg_data.push((id % 256) as u8);
        let mut k: usize = 0;
        while k < data.len()
            invariant
                k <= data@.len(),
                msg_data@ == id_bytes(id) + data@.subrange(0, k as int),
            decreases data@.len() - k,
        {
            msg_data.push(data[k]);
            k += 1;
        }
        assert(data@.subrange(0, k as int) =~= data@);

        let mut flags = tx_flags;
        if id > MAX_STANDARD_ID {
            flags |= CAN_29BIT_ID;
        }
        let total = msg_data.len();
        assert((total as u32) as u64 == (total as u64) % 0x1_0000_0000u64) by (bit_vector);

        PassThruMsg {
            protocol_id,
            rx_status: 0,
            tx_flags: flags,
            timestamp: 0,
            data_size: total as u32,
            extra_data_index: 0,
            data: msg_data,
        }
    }
}

/// A message in the fixed-size form of the driver interface: the first
/// `data_size` bytes of `data` are meaningful.
#[derive(Debug, Clone, Copy)]
pub struct CPassThruMsg {
    pub protocol_id: u32,
    pub rx_status: u32,
    pub tx_flags: u32,
    pub timestamp: u32,
    pub data_size: u32,
    pub extra_data_index: u32,
    pub data: [u8; 4128],
}

impl View for CPassThruMsg {
    type V = MsgView;

    open spec fn view(&self) -> MsgView {
        MsgView {
            protocol_id: self.protocol_id,
            rx_status: self.rx_status,
            tx_flags: self.tx_flags,
            timestamp: self.timestamp,
            data_size: self.data_size,
            extra_data_index: self.extra_data_index,
            data: self.data@,
        }
    }
}

/// Number of data bytes that a fixed-size message carries when its size field, or
/// the length of the data to lay out, is `n`: `n` capped at the capacity.
pub open spec fn carried_len(n: nat) -> nat {
    if n < MESSAGE_CAPACITY {
        n
    } else {
        MESSAGE_CAPACITY as nat
    }
}

/// What reading a fixed-size message gives: the header fields as they stand, the
/// size field included, and the carried bytes.
pub open spec fn read_of(fixed: MsgView) -> MsgView {
    MsgView { data: fixed.data.subrange(0, carried_len(fixed.data_size as nat) as int), ..fixed }
}

/// The fixed-size form of a message: the header fields as they stand, but for the
/// size field, which counts the bytes carried over; these are the data cut at the
/// capacity, and zeros fill the rest.
pub open spec fn fixed_form(msg: MsgView) -> MsgView {
    MsgView {
        data_size: carried_len(msg.data.len()) as u32,
        data: Seq::new(
            MESSAGE_CAPACITY as nat,
            |i: int|
                if i < carried_len(msg.data.len()) {
                    msg.data[i]
                } else {
                    0u8
                },
        ),
        ..msg
    }
}

impl From<&CPassThruMsg> for PassThruMsg {
    /// Reads a fixed-size message.
    fn from(c_msg: &CPassThruMsg) -> (msg: PassThruMsg)
        ensures
            msg@ == read_of(c_msg@),
    {
        let size: usize = if (c_msg.data_size as usize) < MESSAGE_CAPACITY {
            c_msg.data_size as usize
        } else {
            MESSAGE_CAPACITY
        };
        let mut data: Vec<u8> = Vec::with_capacity(size);
        let mut k: usize = 0;
        while k < size
            invariant
                k <= size <= MESSAGE_CAPACITY,
                data@ == c_msg.data@.subrange(0, k as int),
            decreases size - k,
        {
            data.push(c_msg.data[k]);
            k += 1;
        }
        PassThruMsg {
            protocol_id: c_msg.protocol_id,
            rx_status: c_msg.rx_status,
            tx_flags: c_msg.tx_flags,
            timestamp: c_msg.timestamp,
            data_size: c_msg.data_size,
            extra_data_index: c_msg.extra_data_index,
            data,
        }
    }
}

/// The conversion is described over views, by the contract of `from` itself.
impl vstd::std_specs::convert::FromSpecImpl<&CPassThruMsg> for PassThruMsg {
    open spec fn obeys_from_spec() -> bool {
        false
    }

    open spec fn from_spec(c_msg: &CPassThruMsg) -> Self {
        arbitrary()
    }
}

impl From<&PassThruMsg> for CPassThruMsg {
    /// Lays a message out in the fixed-size form.
    fn from(msg: &PassThruMsg) -> (c_msg: CPassThruMsg)
        ensures
            c_msg@ == fixed_form(msg@),
    {
        let mut data = [0u8; 4128];
        let size: usize = if msg.data.len() < MESSAGE_CAPACITY {
            msg.data.len()
        } else {
            MESSAGE_CAPACITY
        };
        let mut k: usize = 0;
        while k < size
            invariant
                k <= size <= MESSAGE_CAPACITY,
                size <= msg.data@.len(),
                data@.len() == MESSAGE_CAPACITY,
                forall|i: int|
                    0 <= i < MESSAGE_CAPACITY ==> #[trigger] data@[i] == if i < k {
                        msg.data@[i]
                    } else {
                        0u8
                    },
            decreases size - k,
        {
            data[k] = msg.data[k];
            k += 1;
        }
        assert(data@ =~= fixed_form(msg@).data);
        CPassThruMsg {
            protocol_id: msg.protocol_id,
            rx_status: msg.rx_status,
            tx_flags: msg.tx_flags,
            timestamp: msg.timestamp,
            data_size: size as u32,
            extra_data_index: msg.extra_data_index,
            data,
        }
    }
}

/// The conversion is described over views, by the contract of `from` itself.
impl vstd::std_specs::convert::FromSpecImpl<&PassThruMsg> for CPassThruMsg {
    open spec fn obeys_from_spec() -> bool {
        false
    }

    open spec fn from_spec(msg: &PassThruMsg) -> Self {
        arbitrary()
    }
}

/// A received message with its identifier taken out of the data.
#[derive(Debug, Clone, PartialEq, Eq)]
pub struct RxMessage {
    pub id: u32,
    pub data: Vec<u8>,
    pub timestamp: u32,
    pub rx_status: u32,
    pub protocol_id: u32,
}

/// What a received message holds, with its payload as a sequence.
pub struct RxView {
    pub id: u32,
    pub data: Seq<u8>,
    pub timestamp: u32,
    pub rx_status: u32,
    pub protocol_id: u32,
}

impl View for RxMessage {
    type V = RxView;

    open spec fn view(&self) -> RxView {
        RxView {
            id: self.id,
            data: self.data@,
            timestamp: self.timestamp,
            rx_status: self.rx_status,
            protocol_id: self.protocol_id,
        }
    }
}

/// The received message in `msg`: `None` when the data are too short to hold an
/// identifier, else the identifier from the first four bytes and the rest as
/// payload.
pub open spec fn rx_of(msg: MsgView) -> Option<RxView> {
    if msg.data.len() < 4 {
        None
    } else {
        Some(
            RxView {
                id: id_of_bytes(msg.data[0], msg.data[1], msg.data[2], msg.data[3]),
                data: msg.data.subrange(4, msg.data.len() as int),
                timestamp: msg.timestamp,
                rx_status: msg.rx_status,
                protocol_id: msg.protocol_id,
            },
        )
    }
}

/// View of an optional received message.
pub open spec fn rx_option_view(r: Option<RxMessage>) -> Option<RxView> {
    match r {
        Some(rx) => Some(rx@),
        None => None,
    }
}

/// Splits a message into identifier and payload.
pub fn to_rx_message(msg: PassThruMsg) -> (r: Option<RxMessage>)
    ensures
        rx_option_view(r) == rx_of(msg@),
{
    read_frame(&msg)
}

/// Reads identifier and payload out of a message that stays with the caller.
pub fn read_frame(msg: &PassThruMsg) -> (r: Option<RxMessage>)
    ensures
        rx_option_view(r) == rx_of(msg@),
{
    if msg.data.len() < 4 {
        return None;
    }
    let id: u32 = (msg.data[0] as u32) * 0x100_0000 + (msg.data[1] as u32) * 0x1_0000 + (
    msg.data[2] as u32) * 0x100 + (msg.data[3] as u32);
    let mut data: Vec<u8> = Vec::with_capacity(msg.data.len() - 4);
    let mut k: usize = 4;
    while k < msg.data.len()
        invariant
            4 <= k <= msg.data@.len(),
            data@ == msg.data@.subrange(4, k as int),
        decreases msg.data@.len() - k,
    {
        data.push(msg.data[k]);
        k += 1;
    }
    Some(
        RxMessage {
            id,
            data,
            timestamp: msg.timestamp,
            rx_status: msg.rx_status,
            protocol_id: msg.protocol_id,
        },
    )
}

/// The views of a sequence of messages.
pub open spec fn msg_views(msgs: Seq<PassThruMsg>) -> Seq<MsgView> {
    Seq::new(msgs.len(), |i: int| msgs[i]@)
}

/// The views of a sequence of received messages.
pub open spec fn rx_views(msgs: Seq<RxMessage>) -> Seq<RxView> {
    Seq::new(msgs.len(), |i: int| msgs[i]@)
}

/// The received messages among `msgs`, in order: those whose data hold an
/// identifier.
pub open spec fn rx_all(msgs: Seq<MsgView>) -> Seq<RxView>
    decreases msgs.len(),
{
    if msgs.len() == 0 {
        Seq::empty()
    } else {
        match rx_of(msgs.last()) {
            Some(rx) => rx_all(msgs.drop_last()).push(rx),
            None => rx_all(msgs.drop_last()),
        }
    }
}

/// The first received message among `msgs`, if there is one.
pub open spec fn rx_first(msgs: Seq<MsgView>) -> Option<RxView> {
    if rx_all(msgs).len() == 0 {
        None
    } else {
        Some(rx_all(msgs)[0])
    }
}

/// Reads every message that holds an identifier; the others are dropped.
pub fn to_rx_messages(msgs: &[PassThruMsg]) -> (r: Vec<RxMessage>)
    ensures
        rx_views(r@) == rx_all(msg_views(msgs@)),
{
    let mut result: Vec<RxMessage> = Vec::new();
    let mut k: usize = 0;
    assert(msg_views(msgs@).subrange(0, 0) =~= Seq::<MsgView>::empty());
    assert(rx_views(result@) =~= Seq::<RxView>::empty());
    while k < msgs.len()
        invariant
            k <= msgs@.len(),
            rx_views(result@) == rx_all(msg_views(msgs@).subrange(0, k as int)),
        decreases msgs@.len() - k,
    {
        let ghost before = msg_views(msgs@).subrange(0, k as int);
        let ghost now = msg_views(msgs@).subrange(0, k as int + 1);
        let ghost old_views = rx_views(result@);
        assert(now.drop_last() =~= before);
        assert(now.last() == msgs@[k as int]@);
        match read_frame(&msgs[k]) {
            Some(rx) => {
                result.push(rx);
                assert(rx_views(result@) =~= old_views.push(rx@));
            },
            None => {},
        }
        k += 1;
    }
    assert(msg_views(msgs@).subrange(0, k as int) =~= msg_views(msgs@));
    result
}

/// Reads the first message that holds an identifier.
pub fn first_rx_message(msgs: &[PassThruMsg]) -> (r: Option<RxMessage>)
    ensures
        rx_option_view(r) == rx_first(msg_views(msgs@)),
{
    let mut k: usize = 0;
    assert(msg_views(msgs@).subrange(0, 0) =~= Seq::<MsgView>::empty());
    while k < msgs.len()
        invariant
            k <= msgs@.len(),
            rx_all(msg_views(msgs@).subrange(0, k as int)).len() == 0,
        decreases msgs@.len() - k,
    {
        let ghost before = msg_views(msgs@).subrange(0, k as int);
        let ghost now = msg_views(msgs@).subrange(0, k as int + 1);
        assert(now.drop_last() =~= before);
        assert(now.last() == msgs@[k as int]@);
        match read_frame(&msgs[k]) {
            Some(rx) => {
                proof {
                    let all = rx_all(msg_views(msgs@));
                    assert(rx_all(now) =~= seq![rx@]);
                    lemma_rx_all_prefix(msg_views(msgs@), k as int + 1);
                    assert(all.subrange(0, 1)[0] == all[0]);
                }
                return Some(rx);
            },
            None => {},
        }
        k += 1;
    }
    assert(msg_views(msgs@).subrange(0, k as int) =~= msg_views(msgs@));
    None
}

/// The received messages among the first `n` messages are the first of the
/// received messages among all.
pub proof fn lemma_rx_all_prefix(msgs: Seq<MsgView>, n: int)
    requires
        0 <= n <= msgs.len(),
    ensures
        rx_all(msgs.subrange(0, n)).len() <= rx_all(msgs).len(),
        rx_all(msgs.subrange(0, n)) == rx_all(msgs).subrange(
            0,
            rx_all(msgs.subrange(0, n)).len() as int,
        ),
    decreases msgs.len(),
{
    if n == msgs.len() {
        assert(msgs.subrange(0, n) =~= msgs);
        assert(rx_all(msgs).subrange(0, rx_all(msgs).len() as int) =~= rx_all(msgs));
    } else {
        let shorter = msgs.drop_last();
        lemma_rx_all_prefix(shorter, n);
        assert(shorter.subrange(0, n) =~= msgs.subrange(0, n));
        let part = rx_all(msgs.subrange(0, n));
        assert(part =~= rx_all(msgs).subrange(0, part.len() as int));
    }
}

/// The identifier that was put into a frame is the one that is read back from
/// it, and so is the payload.
pub proof fn lemma_frame_round_trip(protocol_id: u32, id: u32, payload: Seq<u8>, tx_flags: u32)
    ensures
        rx_of(frame(protocol_id, id, payload, tx_flags)) == Some(
            RxView { id, data: payload, timestamp: 0, rx_status: 0, protocol_id },
        ),
{
    let f = frame(protocol_id, id, payload, tx_flags);
    assert(f.data.subrange(4, f.data.len() as int) =~= payload);
    assert(f.data[0] == id_bytes(id)[0]);
    assert(f.data[1] == id_bytes(id)[1]);
    assert(f.data[2] == id_bytes(id)[2]);
    assert(f.data[3] == id_bytes(id)[3]);
}

/// Laying a message out in the fixed-size form and reading it back gives the
/// message again, provided that its data fit the capacity and its size field
/// counts them.
pub proof fn lemma_fixed_form_round_trip(msg: MsgView)
    requires
        msg.data.len() <= MESSAGE_CAPACITY,
        msg.data_size == msg.data.len(),
    ensures
        read_of(fixed_form(msg)) == msg,
{
    assert(read_of(fixed_form(msg)).data =~= msg.data);
}

/// Data beyond the capacity are cut off: the fixed-size form then carries the
/// first 4128 bytes, and reading it gives those.
pub proof fn lemma_fixed_form_cuts(msg: MsgView)
    ensures
        fixed_form(msg).data.len() == MESSAGE_CAPACITY,
        read_of(fixed_form(msg)).data == msg.data.subrange(
            0,
            carried_len(msg.data.len()) as int,
        ),
        read_of(fixed_form(msg)).data_size == carried_len(msg.data.len()),
{
    assert(read_of(fixed_form(msg)).data =~= msg.data.subrange(
        0,
        carried_len(msg.data.len()) as int,
    ));
}

} // verus!
