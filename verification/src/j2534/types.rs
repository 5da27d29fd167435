use vstd::prelude::*;
use vstd::array::*;
use vstd::slice::*;
use vstd::string::*;
use crate::text::{decimal, hex_bytes, push_decimal, push_hex_bytes};

verus! {

// Protocol identifiers
pub const PROTOCOL_CAN: u32 = 5;
pub const PROTOCOL_ISO15765: u32 = 6;

// Filter types
pub const FILTER_PASS: u32 = 1;
pub const FILTER_BLOCK: u32 = 2;
pub const FILTER_FLOW_CONTROL: u32 = 3;

// Connect flags
pub const CAN_29BIT_ID: u32 = 0x0100;

// Transmit flags
pub const ISO15765_FRAME_PAD: u32 = 0x0040;

// Ioctl identifiers
pub const GET_CONFIG: u32 = 0x01;
pub const SET_CONFIG: u32 = 0x02;
pub const READ_VBATT: u32 = 0x03;
pub const FIVE_BAUD_INIT: u32 = 0x04;
pub const FAST_INIT: u32 = 0x05;
pub const CLEAR_TX_BUFFER: u32 = 0x07;
pub const CLEAR_RX_BUFFER: u32 = 0x08;
pub const CLEAR_PERIODIC_MSGS: u32 = 0x09;
pub const CLEAR_MSG_FILTERS: u32 = 0x0A;

// Configuration parameter identifiers
pub const DATA_RATE: u32 = 0x01;
pub const LOOPBACK: u32 = 0x03;
pub const NODE_ADDRESS: u32 = 0x04;
pub const NETWORK_LINE: u32 = 0x05;
pub const P1_MIN: u32 = 0x06;
pub const P1_MAX: u32 = 0x07;
pub const P2_MIN: u32 = 0x08;
pub const P2_MAX: u32 = 0x09;
pub const P3_MIN: u32 = 0x0A;
pub const P3_MAX: u32 = 0x0B;
pub const P4_MIN: u32 = 0x0C;
pub const P4_MAX: u32 = 0x0D;
pub const ISO15765_BS: u32 = 0x1E;
pub const ISO15765_STMIN: u32 = 0x1F;
pub const ISO15765_WFT_MAX: u32 = 0x24;

/// Capacity of the data buffer of a message envelope.
pub const MAX_DATA_SIZE: usize = 4128;

/// Longest payload that fits behind the CAN identifier.
pub const MAX_PAYLOAD_SIZE: usize = 4124;

/// Longest payload of a raw CAN frame.
pub const MAX_CAN_PAYLOAD: usize = 8;

/// Mask that compares all eleven identifier bits.
pub const CAN_11BIT_MASK: u32 = 0x7FF;

/// The four bytes of a CAN identifier, most significant first.
pub open spec fn be_bytes(id: u32) -> Seq<u8> {
    seq![
        (id as int / 0x100_0000) as u8,
        (id as int / 0x1_0000 % 0x100) as u8,
        (id as int / 0x100 % 0x100) as u8,
        (id as int % 0x100) as u8,
    ]
}

/// The identifier that four bytes spell, most significant first.
pub open spec fn be_value(b: Seq<u8>) -> int
    recommends
        b.len() == 4,
{
    b[0] as int * 0x100_0000 + b[1] as int * 0x1_0000 + b[2] as int * 0x100 + b[3] as int
}

/// Reading back the bytes of an identifier gives the identifier.
pub proof fn lemma_be_round_trip(id: u32)
    ensures
        be_bytes(id).len() == 4,
        be_value(be_bytes(id)) == id as int,
{
}

/// Message envelope handed to and taken from the pass-through adapter: six
/// header words and the data buffer. The buffer opens with the CAN
/// identifier; the payload follows it. How the fields lie in memory is the
/// compiler's choice; the layout that the adapter's library expects is the
/// business of the binding to it.
#[derive(Clone)]
pub struct PassThruMsg {
    pub protocol_id: u32,
    pub rx_status: u32,
    pub tx_flags: u32,
    pub timestamp: u32,
    pub data_size: u32,
    pub extra_data_index: u32,
    pub data: [u8; MAX_DATA_SIZE],
}

impl Default for PassThruMsg {
    fn default() -> (msg: Self)
        ensures
            msg.is_blank(),
    {
        PassThruMsg {
            protocol_id: 0,
            rx_status: 0,
            tx_flags: 0,
            timestamp: 0,
            data_size: 0,
            extra_data_index: 0,
            data: [0u8; MAX_DATA_SIZE],
        }
    }
}

impl PassThruMsg {
    /// Every header word and every buffer byte is zero.
    pub open spec fn is_blank(&self) -> bool {
        &&& self.protocol_id == 0
        &&& self.rx_status == 0
        &&& self.tx_flags == 0
        &&& self.timestamp == 0
        &&& self.data_size == 0
        &&& self.extra_data_index == 0
        &&& forall|i: int| 0 <= i < MAX_DATA_SIZE ==> self.data@[i] == 0u8
    }

    /// The byte count does not exceed the buffer.
    pub open spec fn well_formed(&self) -> bool {
        self.data_size as int <= MAX_DATA_SIZE
    }

    /// The CAN identifier in the first four bytes of the buffer.
    pub open spec fn spec_can_id(&self) -> int {
        be_value(self.data@.subrange(0, 4))
    }

    /// The bytes behind the CAN identifier, up to the byte count.
    pub open spec fn spec_payload(&self) -> Seq<u8> {
        if 4 < self.data_size as int <= MAX_DATA_SIZE {
            self.data@.subrange(4, self.data_size as int)
        } else {
            Seq::<u8>::empty()
        }
    }

    /// The envelope that `frame` describes for `protocol`, `flags`, `id` and
    /// `payload`: identifier, payload, zero fill, and a byte count of four
    /// plus the payload's length.
    pub open spec fn is_frame(&self, protocol: u32, flags: u32, id: u32, payload: Seq<u8>) -> bool {
        &&& self.protocol_id == protocol
        &&& self.rx_status == 0
        &&& self.tx_flags == flags
        &&& self.timestamp == 0
        &&& self.data_size as int == 4 + payload.len()
        &&& self.extra_data_index == 0
        &&& self.data@.subrange(0, 4) == be_bytes(id)
        &&& self.data@.subrange(4, 4 + payload.len() as int) == payload
        &&& forall|i: int| 4 + payload.len() <= i < MAX_DATA_SIZE ==> self.data@[i] == 0u8
    }

    /// Builds an envelope that carries `payload` behind the identifier `id`.
    fn frame(protocol: u32, flags: u32, id: u32, payload: &[u8]) -> (msg: Self)
        requires
            payload@.len() <= MAX_PAYLOAD_SIZE,
        ensures
            msg.is_frame(protocol, flags, id, payload@),
    {
        let mut msg = PassThruMsg {
            protocol_id: protocol,
            rx_status: 0,
            tx_flags: flags,
            timestamp: 0,
            data_size: (4 + payload.len()) as u32,
            extra_data_index: 0,
            data: [0u8; MAX_DATA_SIZE],
        };
        assert((id >> 24u32) & 0xFF == id / 0x100_0000) by (bit_vector);
        assert((id >> 16u32) & 0xFF == id / 0x1_0000 % 0x100) by (bit_vector);
        assert((id >> 8u32) & 0xFF == id / 0x100 % 0x100) by (bit_vector);
        assert(id & 0xFF == id % 0x100) by (bit_vector);
        msg.data[0] = ((id >> 24) & 0xFF) as u8;
        msg.data[1] = ((id >> 16) & 0xFF) as u8;
        msg.data[2] = ((id >> 8) & 0xFF) as u8;
        msg.data[3] = (id & 0xFF) as u8;
        let n = payload.len();
        let mut i: usize = 0;
        while i < n
            invariant
                n == payload@.len(),
                n <= MAX_PAYLOAD_SIZE,
                i <= n,
                msg.protocol_id == protocol,
                msg.rx_status == 0,
                msg.tx_flags == flags,
                msg.timestamp == 0,
                msg.data_size as int == 4 + n,
                msg.extra_data_index == 0,
                msg.data@.subrange(0, 4) == be_bytes(id),
                forall|k: int| 0 <= k < i ==> msg.data@[4 + k] == payload@[k],
                forall|k: int| 4 + i <= k < MAX_DATA_SIZE ==> msg.data@[k] == 0u8,
            decreases n - i,
        {
            let ghost before = msg.data@;
            msg.data[4 + i] = payload[i];
            assert(msg.data@.subrange(0, 4) == before.subrange(0, 4));
            i += 1;
        }
        assert(msg.data@.subrange(4, 4 + payload@.len() as int) == payload@);
        msg
    }

    /// An ISO-TP send envelope: padded single frames, `tx_id` in the first
    /// four bytes, `payload` behind it.
    pub fn new_iso15765(tx_id: u32, payload: &[u8]) -> (msg: Self)
        requires
            payload@.len() <= MAX_PAYLOAD_SIZE,
        ensures
            msg.is_frame(PROTOCOL_ISO15765, ISO15765_FRAME_PAD, tx_id, payload@),
            msg.tx_flags & 0x40 != 0,
            msg.well_formed(),
            msg.spec_can_id() == tx_id as int,
            msg.spec_payload() == payload@,
    {
        let msg = Self::frame(PROTOCOL_ISO15765, ISO15765_FRAME_PAD, tx_id, payload);
        proof {
            assert(0x40u32 & 0x40 != 0) by (bit_vector);
            lemma_frame_reads_back(msg, PROTOCOL_ISO15765, ISO15765_FRAME_PAD, tx_id, payload@);
        }
        msg
    }

    /// A raw CAN send envelope: no pad flag, `can_id` in the first four
    /// bytes, then at most the first eight bytes of `data`.
    pub fn new_raw_can(can_id: u32, data: &[u8]) -> (msg: Self)
        ensures
            msg.is_frame(PROTOCOL_CAN, 0, can_id, raw_can_payload(data@)),
            msg.well_formed(),
            msg.data_size as int <= 12,
            msg.spec_can_id() == can_id as int,
            msg.spec_payload() == raw_can_payload(data@),
    {
        let len = if data.len() < MAX_CAN_PAYLOAD { data.len() } else { MAX_CAN_PAYLOAD };
        let head = slice_subrange(data, 0, len);
        let msg = Self::frame(PROTOCOL_CAN, 0, can_id, head);
        proof {
            assert(head@ =~= raw_can_payload(data@));
            lemma_frame_reads_back(msg, PROTOCOL_CAN, 0, can_id, head@);
        }
        msg
    }

    /// The payload: the buffer from its fifth byte up to the byte count;
    /// empty where the count is four or less.
    pub fn payload(&self) -> (p: &[u8])
        requires
            self.well_formed(),
        ensures
            p@ == self.spec_payload(),
    {
        if self.data_size > 4 {
            slice_subrange(array_as_slice(&self.data), 4, self.data_size as usize)
        } else {
            slice_subrange(array_as_slice(&self.data), 0, 0)
        }
    }

    /// How the envelope shows in a log: its protocol, its byte count, and
    /// the bytes that count as hexadecimal numerals.
    pub open spec fn spec_debug_text(&self) -> Seq<char> {
        "PassThruMsg { protocol_id: "@ + decimal(self.protocol_id as nat) + ", data_size: "@
            + decimal(self.data_size as nat) + ", data: ["@ + hex_bytes(
            self.data@.subrange(0, self.data_size as int),
        ) + "] }"@
    }

    /// Writes the envelope as a log shows it.
    pub fn debug_text(&self) -> (text: String)
        requires
            self.well_formed(),
        ensures
            text@ == self.spec_debug_text(),
    {
        let mut text = String::from_str("PassThruMsg { protocol_id: ");
        push_decimal(&mut text, self.protocol_id as u64);
        text.append(", data_size: ");
        push_decimal(&mut text, self.data_size as u64);
        text.append(", data: [");
        push_hex_bytes(
            &mut text,
            slice_subrange(array_as_slice(&self.data), 0, self.data_size as usize),
        );
        text.append("] }");
        text
    }

    /// The CAN identifier spelled by the first four bytes of the buffer.
    pub fn can_id(&self) -> (id: u32)
        ensures
            id as int == self.spec_can_id(),
    {
        let b0 = self.data[0];
        let b1 = self.data[1];
        let b2 = self.data[2];
        let b3 = self.data[3];
        assert(((b0 as u32) << 24u32) | ((b1 as u32) << 16u32) | ((b2 as u32) << 8u32) | (b3 as u32)
            == (b0 as u32) * 0x100_0000 + (b1 as u32) * 0x1_0000 + (b2 as u32) * 0x100 + (b3 as u32))
            by (bit_vector);
        ((b0 as u32) << 24) | ((b1 as u32) << 16) | ((b2 as u32) << 8) | (b3 as u32)
    }
}

/// What a raw CAN frame keeps of `data`: its first eight bytes.
pub open spec fn raw_can_payload(data: Seq<u8>) -> Seq<u8> {
    if data.len() <= MAX_CAN_PAYLOAD {
        data
    } else {
        data.subrange(0, MAX_CAN_PAYLOAD as int)
    }
}

/// An envelope framed from an identifier and a payload gives both back.
pub proof fn lemma_frame_reads_back(msg: PassThruMsg, protocol: u32, flags: u32, id: u32, payload: Seq<u8>)
    requires
        payload.len() <= MAX_PAYLOAD_SIZE,
        msg.is_frame(protocol, flags, id, payload),
    ensures
        msg.well_formed(),
        msg.spec_can_id() == id as int,
        msg.spec_payload() == payload,
{
    lemma_be_round_trip(id);
    if payload.len() == 0 {
        assert(msg.spec_payload() =~= payload);
    }
}

/// The three envelopes that install a flow-control filter for one ECU.
pub struct FlowControlFilter {
    /// Which identifier bits are compared.
    pub mask: PassThruMsg,
    /// The identifier to listen for.
    pub pattern: PassThruMsg,
    /// The identifier that generated flow-control frames carry.
    pub flow_control: PassThruMsg,
}

/// The filter for one ECU address pair: all eleven identifier bits are
/// compared, frames from `rx_id` are admitted, and flow-control frames go to
/// `tx_id`, padded to eight bytes.
pub fn iso15765_filter(tx_id: u32, rx_id: u32) -> (filter: FlowControlFilter)
    ensures
        filter.mask.is_frame(PROTOCOL_ISO15765, 0, CAN_11BIT_MASK, Seq::<u8>::empty()),
        filter.pattern.is_frame(PROTOCOL_ISO15765, 0, rx_id, Seq::<u8>::empty()),
        filter.flow_control.is_frame(
            PROTOCOL_ISO15765,
            ISO15765_FRAME_PAD,
            tx_id,
            Seq::<u8>::empty(),
        ),
{
    let none: [u8; 0] = [];
    let empty = array_as_slice(&none);
    assert(empty@ =~= Seq::<u8>::empty());
    FlowControlFilter {
        mask: PassThruMsg::frame(PROTOCOL_ISO15765, 0, CAN_11BIT_MASK, empty),
        pattern: PassThruMsg::frame(PROTOCOL_ISO15765, 0, rx_id, empty),
        flow_control: PassThruMsg::frame(PROTOCOL_ISO15765, ISO15765_FRAME_PAD, tx_id, empty),
    }
}

/// Status codes of the pass-through adapter.
#[derive(Debug, Clone, Copy, PartialEq, Eq, Structural)]
pub enum J2534Error {
    NoError,
    NotSupported,
    InvalidChannelId,
    InvalidProtocolId,
    NullParameter,
    InvalidIoctlValue,
    InvalidFlags,
    Failed,
    DeviceNotConnected,
    Timeout,
    InvalidMsg,
    InvalidTimeInterval,
    ExceededLimit,
    InvalidMsgId,
    DeviceInUse,
    InvalidIoctlId,
    BufferEmpty,
    BufferFull,
    BufferOverflow,
    PinInvalid,
    ChannelInUse,
    MsgProtocolId,
    InvalidFilterId,
    NoFlowControl,
    NotUnique,
    InvalidBaudrate,
    InvalidDeviceId,
}

impl J2534Error {
    /// The number that the adapter returns for this status.
    pub open spec fn spec_code(self) -> u32 {
        match self {
            J2534Error::NoError => 0x00,
            J2534Error::NotSupported => 0x01,
            J2534Error::InvalidChannelId => 0x02,
            J2534Error::InvalidProtocolId => 0x03,
            J2534Error::NullParameter => 0x04,
            J2534Error::InvalidIoctlValue => 0x05,
            J2534Error::InvalidFlags => 0x06,
            J2534Error::Failed => 0x07,
            J2534Error::DeviceNotConnected => 0x08,
            J2534Error::Timeout => 0x09,
            J2534Error::InvalidMsg => 0x0A,
            J2534Error::InvalidTimeInterval => 0x0B,
            J2534Error::ExceededLimit => 0x0C,
            J2534Error::InvalidMsgId => 0x0D,
            J2534Error::DeviceInUse => 0x0E,
            J2534Error::InvalidIoctlId => 0x0F,
            J2534Error::BufferEmpty => 0x10,
            J2534Error::BufferFull => 0x11,
            J2534Error::BufferOverflow => 0x12,
            J2534Error::PinInvalid => 0x13,
            J2534Error::ChannelInUse => 0x14,
            J2534Error::MsgProtocolId => 0x15,
            J2534Error::InvalidFilterId => 0x16,
            J2534Error::NoFlowControl => 0x17,
            J2534Error::NotUnique => 0x18,
            J2534Error::InvalidBaudrate => 0x19,
            J2534Error::InvalidDeviceId => 0x1A,
        }
    }

    /// The readable form of this status.
    pub open spec fn message(self) -> Seq<char> {
        match self {
            J2534Error::NoError => "No error"@,
            J2534Error::NotSupported => "Not supported"@,
            J2534Error::InvalidChannelId => "Invalid channel ID"@,
            J2534Error::InvalidProtocolId => "Invalid protocol ID"@,
            J2534Error::NullParameter => "Null parameter"@,
            J2534Error::InvalidIoctlValue => "Invalid IOCTL value"@,
            J2534Error::InvalidFlags => "Invalid flags"@,
            J2534Error::Failed => "Failed"@,
            J2534Error::DeviceNotConnected => "Device not connected"@,
            J2534Error::Timeout => "Timeout"@,
            J2534Error::InvalidMsg => "Invalid message"@,
            J2534Error::InvalidTimeInterval => "Invalid time interval"@,
            J2534Error::ExceededLimit => "Exceeded limit"@,
            J2534Error::InvalidMsgId => "Invalid message ID"@,
            J2534Error::DeviceInUse => "Device in use"@,
            J2534Error::InvalidIoctlId => "Invalid IOCTL ID"@,
            J2534Error::BufferEmpty => "Buffer empty"@,
            J2534Error::BufferFull => "Buffer full"@,
            J2534Error::BufferOverflow => "Buffer overflow"@,
            J2534Error::PinInvalid => "Pin invalid"@,
            J2534Error::ChannelInUse => "Channel in use"@,
            J2534Error::MsgProtocolId => "Message protocol ID mismatch"@,
            J2534Error::InvalidFilterId => "Invalid filter ID"@,
            J2534Error::NoFlowControl => "No flow control"@,
            J2534Error::NotUnique => "Not unique"@,
            J2534Error::InvalidBaudrate => "Invalid baudrate"@,
            J2534Error::InvalidDeviceId => "Invalid device ID"@,
        }
    }

    /// A read that brought nothing yet: the adapter's timeout and its empty
    /// buffer are no failure.
    pub open spec fn spec_is_no_data(self) -> bool {
        self == J2534Error::Timeout || self == J2534Error::BufferEmpty
    }

    /// The status for a number that the adapter returned; `Failed` for a
    /// number outside the table.
    pub fn from_code(code: u32) -> (e: Self)
        ensures
            e == status_of(code),
    {
        match code {
            0x00 => J2534Error::NoError,
            0x01 => J2534Error::NotSupported,
            0x02 => J2534Error::InvalidChannelId,
            0x03 => J2534Error::InvalidProtocolId,
            0x04 => J2534Error::NullParameter,
            0x05 => J2534Error::InvalidIoctlValue,
            0x06 => J2534Error::InvalidFlags,
            0x07 => J2534Error::Failed,
            0x08 => J2534Error::DeviceNotConnected,
            0x09 => J2534Error::Timeout,
            0x0A => J2534Error::InvalidMsg,
            0x0B => J2534Error::InvalidTimeInterval,
            0x0C => J2534Error::ExceededLimit,
            0x0D => J2534Error::InvalidMsgId,
            0x0E => J2534Error::DeviceInUse,
            0x0F => J2534Error::InvalidIoctlId,
            0x10 => J2534Error::BufferEmpty,
            0x11 => J2534Error::BufferFull,
            0x12 => J2534Error::BufferOverflow,
            0x13 => J2534Error::PinInvalid,
            0x14 => J2534Error::ChannelInUse,
            0x15 => J2534Error::MsgProtocolId,
            0x16 => J2534Error::InvalidFilterId,
            0x17 => J2534Error::NoFlowControl,
            0x18 => J2534Error::NotUnique,
            0x19 => J2534Error::InvalidBaudrate,
            0x1A => J2534Error::InvalidDeviceId,
            _ => J2534Error::Failed,
        }
    }

    /// The number that the adapter returns for this status.
    pub fn code(self) -> (c: u32)
        ensures
            c == self.spec_code(),
    {
        match self {
            J2534Error::NoError => 0x00,
            J2534Error::NotSupported => 0x01,
            J2534Error::InvalidChannelId => 0x02,
            J2534Error::InvalidProtocolId => 0x03,
            J2534Error::NullParameter => 0x04,
            J2534Error::InvalidIoctlValue => 0x05,
            J2534Error::InvalidFlags => 0x06,
            J2534Error::Failed => 0x07,
            J2534Error::DeviceNotConnected => 0x08,
            J2534Error::Timeout => 0x09,
            J2534Error::InvalidMsg => 0x0A,
            J2534Error::InvalidTimeInterval => 0x0B,
            J2534Error::ExceededLimit => 0x0C,
            J2534Error::InvalidMsgId => 0x0D,
            J2534Error::DeviceInUse => 0x0E,
            J2534Error::InvalidIoctlId => 0x0F,
            J2534Error::BufferEmpty => 0x10,
            J2534Error::BufferFull => 0x11,
            J2534Error::BufferOverflow => 0x12,
            J2534Error::PinInvalid => 0x13,
            J2534Error::ChannelInUse => 0x14,
            J2534Error::MsgProtocolId => 0x15,
            J2534Error::InvalidFilterId => 0x16,
            J2534Error::NoFlowControl => 0x17,
            J2534Error::NotUnique => 0x18,
            J2534Error::InvalidBaudrate => 0x19,
            J2534Error::InvalidDeviceId => 0x1A,
        }
    }

    /// Whether a read that ended with this status only found nothing yet.
    pub fn is_no_data(self) -> (b: bool)
        ensures
            b == self.spec_is_no_data(),
    {
        match self {
            J2534Error::Timeout => true,
            J2534Error::BufferEmpty => true,
            _ => false,
        }
    }

    /// The readable form of this status.
    pub fn to_string(&self) -> (s: String)
        ensures
            s@ == self.message(),
    {
        let text = match self {
            J2534Error::NoError => "No error",
            J2534Error::NotSupported => "Not supported",
            J2534Error::InvalidChannelId => "Invalid channel ID",
            J2534Error::InvalidProtocolId => "Invalid protocol ID",
            J2534Error::NullParameter => "Null parameter",
            J2534Error::InvalidIoctlValue => "Invalid IOCTL value",
            J2534Error::InvalidFlags => "Invalid flags",
            J2534Error::Failed => "Failed",
            J2534Error::DeviceNotConnected => "Device not connected",
            J2534Error::Timeout => "Timeout",
            J2534Error::InvalidMsg => "Invalid message",
            J2534Error::InvalidTimeInterval => "Invalid time interval",
            J2534Error::ExceededLimit => "Exceeded limit",
            J2534Error::InvalidMsgId => "Invalid message ID",
            J2534Error::DeviceInUse => "Device in use",
            J2534Error::InvalidIoctlId => "Invalid IOCTL ID",
            J2534Error::BufferEmpty => "Buffer empty",
            J2534Error::BufferFull => "Buffer full",
            J2534Error::BufferOverflow => "Buffer overflow",
            J2534Error::PinInvalid => "Pin invalid",
            J2534Error::ChannelInUse => "Channel in use",
            J2534Error::MsgProtocolId => "Message protocol ID mismatch",
            J2534Error::InvalidFilterId => "Invalid filter ID",
            J2534Error::NoFlowControl => "No flow control",
            J2534Error::NotUnique => "Not unique",
            J2534Error::InvalidBaudrate => "Invalid baudrate",
            J2534Error::InvalidDeviceId => "Invalid device ID",
        };
        String::from_str(text)
    }
}

/// The status that stands for a number: the table's entry, or `Failed` for
/// a number outside the table.
pub open spec fn status_of(code: u32) -> J2534Error {
    match code {
        0x00 => J2534Error::NoError,
        0x01 => J2534Error::NotSupported,
        0x02 => J2534Error::InvalidChannelId,
        0x03 => J2534Error::InvalidProtocolId,
        0x04 => J2534Error::NullParameter,
        0x05 => J2534Error::InvalidIoctlValue,
        0x06 => J2534Error::InvalidFlags,
        0x07 => J2534Error::Failed,
        0x08 => J2534Error::DeviceNotConnected,
        0x09 => J2534Error::Timeout,
        0x0A => J2534Error::InvalidMsg,
        0x0B => J2534Error::InvalidTimeInterval,
        0x0C => J2534Error::ExceededLimit,
        0x0D => J2534Error::InvalidMsgId,
        0x0E => J2534Error::DeviceInUse,
        0x0F => J2534Error::InvalidIoctlId,
        0x10 => J2534Error::BufferEmpty,
        0x11 => J2534Error::BufferFull,
        0x12 => J2534Error::BufferOverflow,
        0x13 => J2534Error::PinInvalid,
        0x14 => J2534Error::ChannelInUse,
        0x15 => J2534Error::MsgProtocolId,
        0x16 => J2534Error::InvalidFilterId,
        0x17 => J2534Error::NoFlowControl,
        0x18 => J2534Error::NotUnique,
        0x19 => J2534Error::InvalidBaudrate,
        0x1A => J2534Error::InvalidDeviceId,
        _ => J2534Error::Failed,
    }
}

/// Every status is found again from its number, and every number of the
/// table from its status.
pub proof fn lemma_status_code_round_trip(e: J2534Error, code: u32)
    ensures
        status_of(e.spec_code()) == e,
        code <= 0x1A ==> status_of(code).spec_code() == code,
{
}

/// The failure text for an adapter call that returned `status`.
pub open spec fn status_failure(call: Seq<char>, status: u32) -> Seq<char> {
    call + " failed: "@ + status_of(status).message()
}

/// What becomes of the status of an adapter call: success for zero, else
/// the failure text that names the call and the status.
pub fn check_status(call: &str, status: u32) -> (r: Result<(), String>)
    ensures
        status == 0 <==> r is Ok,
        status != 0 ==> r.unwrap_err()@ == status_failure(call@, status),
{
    if status == 0 {
        Ok(())
    } else {
        let mut text = String::from_str(call);
        text.append(" failed: ");
        text.append(J2534Error::from_code(status).to_string().as_str());
        Err(text)
    }
}

/// What becomes of the status of a read: the adapter's timeout and its
/// empty buffer mean that nothing has arrived yet, which is no failure.
pub fn check_read_status(call: &str, status: u32) -> (r: Result<(), String>)
    ensures
        (status == 0 || status_of(status).spec_is_no_data()) <==> r is Ok,
        r is Err ==> r.unwrap_err()@ == status_failure(call@, status),
{
    if J2534Error::from_code(status).is_no_data() {
        Ok(())
    } else {
        check_status(call, status)
    }
}

/// One configuration parameter with its value.
#[derive(Debug, Clone, Copy, PartialEq, Eq, Structural)]
pub struct SConfig {
    pub parameter: u32,
    pub value: u32,
}

/// The parameter list that sets ISO-TP flow control: block size, separation
/// time and the limit of wait frames, in this order.
pub fn iso15765_config(bs: u32, stmin: u32, wft_max: u32) -> (list: Vec<SConfig>)
    ensures
        list@ == seq![
            (SConfig { parameter: ISO15765_BS, value: bs }),
            (SConfig { parameter: ISO15765_STMIN, value: stmin }),
            (SConfig { parameter: ISO15765_WFT_MAX, value: wft_max }),
        ],
{
    let mut list = Vec::new();
    list.push(SConfig { parameter: ISO15765_BS, value: bs });
    list.push(SConfig { parameter: ISO15765_STMIN, value: stmin });
    list.push(SConfig { parameter: ISO15765_WFT_MAX, value: wft_max });
    assert(list@ =~= seq![
        (SConfig { parameter: ISO15765_BS, value: bs }),
        (SConfig { parameter: ISO15765_STMIN, value: stmin }),
        (SConfig { parameter: ISO15765_WFT_MAX, value: wft_max }),
    ]);
    list
}

} // verus!
