use vstd::prelude::*;
use vstd::string::*;
use vstd::slice::*;
use crate::j2534::types::{
    raw_can_payload, PassThruMsg, ISO15765_FRAME_PAD, PROTOCOL_CAN, PROTOCOL_ISO15765,
};
use crate::uds::services::ecu_addr;

verus! {

/// The ECUs that the emulator can stand in for.
#[derive(Debug, Clone, Copy, PartialEq, Eq, Hash, Structural)]
pub enum EcuId {
    Bcm,
    Gwm,
    Ipc,
}

impl EcuId {
    /// The address that requests to this ECU are sent to.
    pub open spec fn spec_tx_id(self) -> u32 {
        match self {
            EcuId::Bcm => 0x726,
            EcuId::Gwm => 0x716,
            EcuId::Ipc => 0x720,
        }
    }

    /// The address that this ECU answers from.
    pub open spec fn spec_rx_id(self) -> u32 {
        match self {
            EcuId::Bcm => 0x72E,
            EcuId::Gwm => 0x71E,
            EcuId::Ipc => 0x728,
        }
    }

    /// The name of this ECU in capitals.
    pub open spec fn spec_name(self) -> Seq<char> {
        match self {
            EcuId::Bcm => "BCM"@,
            EcuId::Gwm => "GWM"@,
            EcuId::Ipc => "IPC"@,
        }
    }

    /// The name of this ECU in lower case, as the ECU list of the bench mode
    /// spells it.
    pub open spec fn spec_key(self) -> Seq<char> {
        match self {
            EcuId::Bcm => "bcm"@,
            EcuId::Gwm => "gwm"@,
            EcuId::Ipc => "ipc"@,
        }
    }

    /// Whether `text` spells the name of this ECU, whatever the case of its
    /// letters.
    pub open spec fn named_by(self, text: Seq<char>) -> bool {
        &&& text.len() == 3
        &&& forall|i: int| 0 <= i < 3 ==> same_letter(#[trigger] text[i], self.spec_key()[i])
    }

    /// The address that requests to this ECU are sent to.
    pub fn tx_id(self) -> (id: u32)
        ensures
            id == self.spec_tx_id(),
    {
        match self {
            EcuId::Bcm => ecu_addr::BCM_TX,
            EcuId::Gwm => ecu_addr::GWM_TX,
            EcuId::Ipc => ecu_addr::IPC_TX,
        }
    }

    /// The address that this ECU answers from.
    pub fn rx_id(self) -> (id: u32)
        ensures
            id == self.spec_rx_id(),
    {
        match self {
            EcuId::Bcm => ecu_addr::BCM_RX,
            EcuId::Gwm => ecu_addr::GWM_RX,
            EcuId::Ipc => ecu_addr::IPC_RX,
        }
    }

    /// The name of this ECU in capitals.
    pub fn name(self) -> (n: &'static str)
        ensures
            n@ == self.spec_name(),
    {
        match self {
            EcuId::Bcm => "BCM",
            EcuId::Gwm => "GWM",
            EcuId::Ipc => "IPC",
        }
    }

    /// The name of this ECU in lower case.
    pub fn key(self) -> (k: &'static str)
        ensures
            k@ == self.spec_key(),
    {
        match self {
            EcuId::Bcm => "bcm",
            EcuId::Gwm => "gwm",
            EcuId::Ipc => "ipc",
        }
    }

    /// The ECU that `s` names, whatever the case of its letters.
    pub fn from_str(s: &str) -> (ecu: Option<EcuId>)
        ensures
            forall|e: EcuId| e.named_by(s@) <==> ecu == Some(e),
    {
        proof {
            reveal_strlit("bcm");
            reveal_strlit("gwm");
            reveal_strlit("ipc");
        }
        if s.unicode_len() != 3 {
            return None;
        }
        let c0 = s.get_char(0);
        let c1 = s.get_char(1);
        let c2 = s.get_char(2);
        let ecu = if is_letter(c0, 'b') && is_letter(c1, 'c') && is_letter(c2, 'm') {
            Some(EcuId::Bcm)
        } else if is_letter(c0, 'g') && is_letter(c1, 'w') && is_letter(c2, 'm') {
            Some(EcuId::Gwm)
        } else if is_letter(c0, 'i') && is_letter(c1, 'p') && is_letter(c2, 'c') {
            Some(EcuId::Ipc)
        } else {
            None
        };
        assert forall|e: EcuId| e.named_by(s@) <==> ecu == Some(e) by {
            if e.named_by(s@) {
                assert(same_letter(s@[0], e.spec_key()[0]));
                assert(same_letter(s@[1], e.spec_key()[1]));
                assert(same_letter(s@[2], e.spec_key()[2]));
            }
        }
        ecu
    }

    /// Every ECU that the emulator knows.
    pub fn all() -> (ecus: &'static [EcuId])
        ensures
            ecus@ == seq![EcuId::Bcm, EcuId::Gwm, EcuId::Ipc],
    {
        let ecus: &'static [EcuId; 3] = &ALL_ECUS;
        assert(ecus@ =~= seq![EcuId::Bcm, EcuId::Gwm, EcuId::Ipc]);
        ecus.as_slice()
    }
}

/// Every ECU that the emulator knows.
pub const ALL_ECUS: [EcuId; 3] = [EcuId::Bcm, EcuId::Gwm, EcuId::Ipc];

/// Whether `c` is the lower-case letter `lower` or its capital.
pub open spec fn same_letter(c: char, lower: char) -> bool {
    c == lower || (c as u32) + 32 == lower as u32
}

fn is_letter(c: char, lower: char) -> (same: bool)
    ensures
        same == same_letter(c, lower),
{
    c == lower || (c as u32) + 32 == lower as u32
}

/// Each ECU is found again from its lower-case name, and from no other
/// ECU's name.
pub proof fn lemma_key_names_ecu(ecu: EcuId, other: EcuId)
    ensures
        ecu.named_by(ecu.spec_key()),
        other.named_by(ecu.spec_key()) ==> other == ecu,
{
    reveal_strlit("bcm");
    reveal_strlit("gwm");
    reveal_strlit("ipc");
    if other.named_by(ecu.spec_key()) {
        assert(same_letter(ecu.spec_key()[0], other.spec_key()[0]));
    }
}

/// First byte of every negative response.
pub const NEGATIVE_RESPONSE: u8 = 0x7F;

/// The negative response to the service `sid` for the reason `nrc`.
pub open spec fn negative(sid: u8, nrc: u8) -> Seq<u8> {
    seq![0x7F, sid, nrc]
}

/// The replies that every emulated ECU gives: to tester-present, to a
/// session switch (with the timing parameters 25 ms and 500 ms) and to a
/// seed request (a seed of zeros: already unlocked).
pub open spec fn basic_reply(request: Seq<u8>) -> Option<Seq<u8>> {
    if request.len() >= 2 && request[0] == 0x3E && request[1] == 0x00 {
        Some(seq![0x7E, 0x00])
    } else if request.len() >= 2 && request[0] == 0x10 {
        Some(seq![0x50, request[1], 0x00, 0x19, 0x01, 0xF4])
    } else if request.len() >= 2 && request[0] == 0x27 {
        Some(seq![0x67, request[1], 0x00, 0x00, 0x00])
    } else {
        None
    }
}

/// The reply to a request that no rule of the ECU covers: the service is not
/// supported. An empty request gets no reply.
pub open spec fn refusal(request: Seq<u8>) -> Option<Seq<u8>> {
    if request.len() >= 1 {
        Some(negative(request[0], 0x11))
    } else {
        None
    }
}

/// The identifier that two bytes spell, high byte first.
pub open spec fn did_of(hi: u8, lo: u8) -> u16 {
    (hi as int * 256 + lo as int) as u16
}

/// The data that the body control module holds under an identifier, as
/// read from a vehicle.
pub open spec fn bcm_did_data(did: u16) -> Option<Seq<u8>> {
    match did {
        // vehicle identification number
        0xF190 => Some(seq![
            0x53, 0x41, 0x4A, 0x42, 0x4C, 0x34, 0x42, 0x56, 0x58, 0x47, 0x43, 0x59, 0x31,
            0x36, 0x33, 0x35, 0x33,
        ]),
        // software part number, filled with zeros to 24 bytes
        0xF188 => Some(seq![
            0x47, 0x58, 0x37, 0x33, 0x2D, 0x31, 0x34, 0x43, 0x31, 0x38, 0x34, 0x2D, 0x41,
            0x4B, 0x00, 0x00, 0x00, 0x00, 0x00, 0x00, 0x00, 0x00, 0x00, 0x00,
        ]),
        // serial number
        0xF18C => Some(seq![0x31, 0x39, 0x37, 0x39, 0x31, 0x34, 0x39, 0x38, 0x30, 0x38]),
        // hardware part number, filled with zeros to 24 bytes
        0xF113 => Some(seq![
            0x47, 0x58, 0x37, 0x33, 0x2D, 0x31, 0x34, 0x46, 0x30, 0x34, 0x31, 0x2D, 0x41,
            0x4B, 0x00, 0x00, 0x00, 0x00, 0x00, 0x00, 0x00, 0x00, 0x00, 0x00,
        ]),
        0x40AB => Some(seq![0x04]),
        0x40DE => Some(seq![0x01]),
        0x41DD => Some(seq![0x00]),
        0xA112 => Some(seq![0x1F, 0xFF, 0xFF, 0x1F]),
        0xC124 => Some(seq![0x6C, 0x04, 0x6C, 0x04]),
        0xC190 => Some(seq![0x80, 0x00, 0x7D, 0x6C]),
        0xD134 => Some(seq![0x00]),
        0xDD01 => Some(seq![0x03, 0x5F, 0xB8]),
        0xDD06 => Some(seq![0x67]),
        0xDE02 => Some(seq![0xFF, 0xFF, 0xFF, 0xFF, 0xFF, 0xFF, 0xFF, 0xFF]),
        0xDE03 => Some(seq![0xFF, 0xFF, 0xFF, 0xFF, 0xFF, 0xFF, 0xFF, 0xFF]),
        _ => None,
    }
}

/// The data that an emulated ECU holds under an identifier. The body
/// control module has its table; the gateway and the instrument cluster
/// hold no identifiers.
pub open spec fn ecu_did_data(ecu: EcuId, did: u16) -> Option<Seq<u8>> {
    match ecu {
        EcuId::Bcm => bcm_did_data(did),
        EcuId::Gwm => None,
        EcuId::Ipc => None,
    }
}

/// The reply of an emulated ECU to a request: beyond the basic replies it
/// answers a reset, a read by identifier from the ECU's table (an
/// identifier outside the table is out of range), communication control, a
/// write by identifier and a routine. Any other service is not supported.
pub open spec fn emulator_reply(ecu: EcuId, request: Seq<u8>) -> Option<Seq<u8>> {
    if basic_reply(request) is Some {
        basic_reply(request)
    } else if request.len() >= 2 && request[0] == 0x11 {
        Some(seq![0x51, request[1]])
    } else if request.len() >= 3 && request[0] == 0x22 {
        match ecu_did_data(ecu, did_of(request[1], request[2])) {
            Some(data) => Some(seq![0x62, request[1], request[2]] + data),
            None => Some(negative(0x22, 0x31)),
        }
    } else if request.len() >= 2 && request[0] == 0x28 {
        Some(seq![0x68, request[1]])
    } else if request.len() >= 3 && request[0] == 0x2E {
        Some(seq![0x6E, request[1], request[2]])
    } else if request.len() >= 4 && request[0] == 0x31 {
        Some(seq![0x71, request[1], request[2], request[3]])
    } else {
        refusal(request)
    }
}

/// A response that opens with the request's service identifier plus 0x40.
pub open spec fn is_positive_for(request: Seq<u8>, response: Seq<u8>) -> bool {
    &&& request.len() >= 1
    &&& response.len() >= 1
    &&& response[0] as int == request[0] as int + 0x40
}

/// A response of three bytes: 0x7F, the request's service identifier, and a
/// reason.
pub open spec fn is_negative_for(request: Seq<u8>, response: Seq<u8>) -> bool {
    &&& request.len() >= 1
    &&& response.len() == 3
    &&& response[0] == 0x7F
    &&& response[1] == request[0]
}

/// Every emulated ECU answers every request that is not empty, and its
/// answer is either positive for the request's service or the negative
/// response that names it.
pub proof fn lemma_reply_shape(ecu: EcuId, request: Seq<u8>)
    ensures
        emulator_reply(ecu, request) is Some <==> request.len() >= 1,
        emulator_reply(ecu, request) matches Some(response) ==> is_positive_for(request, response)
            || is_negative_for(request, response),
{
}

/// A reply of an emulated ECU that opens with 0x7F is a refusal: the
/// negative response to the request's service, because the service is not
/// supported or because the identifier is out of range.
pub proof fn lemma_refusal_reason(ecu: EcuId, request: Seq<u8>)
    ensures
        emulator_reply(ecu, request) matches Some(reply) ==> reply.len() >= 1 && (reply[0] == 0x7F
            ==> request.len() >= 1 && (reply == negative(request[0], 0x11) || reply == negative(
            request[0],
            0x31,
        ))),
{
}

/// No reply of an emulated ECU is longer than twenty-seven bytes: the
/// longest holds a part number of twenty-four.
pub proof fn lemma_reply_len(ecu: EcuId, request: Seq<u8>)
    ensures
        emulator_reply(ecu, request) matches Some(reply) ==> reply.len() <= 27,
{
}

/// The view of an optional byte vector.
pub open spec fn bytes_view(bytes: Option<Vec<u8>>) -> Option<Seq<u8>> {
    match bytes {
        Some(v) => Some(v@),
        None => None,
    }
}

fn basic_response(request: &[u8]) -> (response: Option<Vec<u8>>)
    ensures
        bytes_view(response) == basic_reply(request@),
{
    if request.len() >= 2 && request[0] == 0x3E && request[1] == 0x00 {
        Some(vec![0x7E, 0x00])
    } else if request.len() >= 2 && request[0] == 0x10 {
        Some(vec![0x50, request[1], 0x00, 0x19, 0x01, 0xF4])
    } else if request.len() >= 2 && request[0] == 0x27 {
        Some(vec![0x67, request[1], 0x00, 0x00, 0x00])
    } else {
        None
    }
}

fn refuse(request: &[u8]) -> (response: Option<Vec<u8>>)
    ensures
        bytes_view(response) == refusal(request@),
{
    if request.len() >= 1 {
        Some(vec![NEGATIVE_RESPONSE, request[0], 0x11])
    } else {
        None
    }
}

fn bcm_did(did: u16) -> (data: Option<Vec<u8>>)
    ensures
        bytes_view(data) == bcm_did_data(did),
{
    match did {
        0xF190 => Some(vec![
            0x53u8, 0x41, 0x4A, 0x42, 0x4C, 0x34, 0x42, 0x56, 0x58, 0x47, 0x43, 0x59,
            0x31, 0x36, 0x33, 0x35, 0x33,
        ]),
        0xF188 => Some(vec![
            0x47u8, 0x58, 0x37, 0x33, 0x2D, 0x31, 0x34, 0x43, 0x31, 0x38, 0x34, 0x2D,
            0x41, 0x4B, 0x00, 0x00, 0x00, 0x00, 0x00, 0x00, 0x00, 0x00, 0x00, 0x00,
        ]),
        0xF18C => Some(vec![0x31u8, 0x39, 0x37, 0x39, 0x31, 0x34, 0x39, 0x38, 0x30, 0x38]),
        0xF113 => Some(vec![
            0x47u8, 0x58, 0x37, 0x33, 0x2D, 0x31, 0x34, 0x46, 0x30, 0x34, 0x31, 0x2D,
            0x41, 0x4B, 0x00, 0x00, 0x00, 0x00, 0x00, 0x00, 0x00, 0x00, 0x00, 0x00,
        ]),
        0x40AB => Some(vec![0x04u8]),
        0x40DE => Some(vec![0x01u8]),
        0x41DD => Some(vec![0x00u8]),
        0xA112 => Some(vec![0x1Fu8, 0xFF, 0xFF, 0x1F]),
        0xC124 => Some(vec![0x6Cu8, 0x04, 0x6C, 0x04]),
        0xC190 => Some(vec![0x80u8, 0x00, 0x7D, 0x6C]),
        0xD134 => Some(vec![0x00u8]),
        0xDD01 => Some(vec![0x03u8, 0x5F, 0xB8]),
        0xDD06 => Some(vec![0x67u8]),
        0xDE02 => Some(vec![0xFFu8, 0xFF, 0xFF, 0xFF, 0xFF, 0xFF, 0xFF, 0xFF]),
        0xDE03 => Some(vec![0xFFu8, 0xFF, 0xFF, 0xFF, 0xFF, 0xFF, 0xFF, 0xFF]),
        _ => None,
    }
}

fn ecu_did(ecu: EcuId, did: u16) -> (data: Option<Vec<u8>>)
    ensures
        bytes_view(data) == ecu_did_data(ecu, did),
{
    match ecu {
        EcuId::Bcm => bcm_did(did),
        EcuId::Gwm => None,
        EcuId::Ipc => None,
    }
}

/// Builds the reply of an emulated ECU to a request.
pub fn respond(ecu: EcuId, request: &[u8]) -> (response: Option<Vec<u8>>)
    ensures
        bytes_view(response) == emulator_reply(ecu, request@),
{
    let basic = basic_response(request);
    if basic.is_some() {
        return basic;
    }
    if request.len() >= 2 && request[0] == 0x11 {
        Some(vec![0x51, request[1]])
    } else if request.len() >= 3 && request[0] == 0x22 {
        let did = ((request[1] as u16) << 8) | (request[2] as u16);
        assert(did == did_of(request[1], request[2])) by {
            let hi = request[1];
            let lo = request[2];
            assert(((hi as u16) << 8u16) | (lo as u16) == (hi as u16) * 256 + (lo as u16))
                by (bit_vector);
        }
        match ecu_did(ecu, did) {
            Some(data) => {
                let mut response = vec![0x62, request[1], request[2]];
                let mut data = data;
                response.append(&mut data);
                Some(response)
            },
            None => Some(vec![NEGATIVE_RESPONSE, 0x22, 0x31]),
        }
    } else if request.len() >= 2 && request[0] == 0x28 {
        Some(vec![0x68, request[1]])
    } else if request.len() >= 3 && request[0] == 0x2E {
        Some(vec![0x6E, request[1], request[2]])
    } else if request.len() >= 4 && request[0] == 0x31 {
        Some(vec![0x71, request[1], request[2], request[3]])
    } else {
        refuse(request)
    }
}

/// What an ECU that the emulator stands in for does with a request.
pub trait EcuHandler {
    /// The reply of this ECU to a request, if it gives one.
    spec fn reply(&self, request: Seq<u8>) -> Option<Seq<u8>>;

    /// The name of this ECU.
    spec fn spec_name(&self) -> Seq<char>;

    /// Builds the response to `request`; `None` where the ECU keeps silent.
    fn build_response(&self, request: &[u8]) -> (response: Option<Vec<u8>>)
        ensures
            bytes_view(response) == self.reply(request@),
    ;

    /// The name of this ECU, for the log.
    fn name(&self) -> (n: &str)
        ensures
            n@ == self.spec_name(),
    ;
}

/// The body control module.
pub struct BcmHandler;

impl EcuHandler for BcmHandler {
    open spec fn reply(&self, request: Seq<u8>) -> Option<Seq<u8>> {
        emulator_reply(EcuId::Bcm, request)
    }

    open spec fn spec_name(&self) -> Seq<char> {
        "BCM"@
    }

    fn name(&self) -> (n: &str) {
        "BCM"
    }

    fn build_response(&self, request: &[u8]) -> (response: Option<Vec<u8>>) {
        respond(EcuId::Bcm, request)
    }
}

/// The gateway module.
pub struct GwmHandler;

impl EcuHandler for GwmHandler {
    open spec fn reply(&self, request: Seq<u8>) -> Option<Seq<u8>> {
        emulator_reply(EcuId::Gwm, request)
    }

    open spec fn spec_name(&self) -> Seq<char> {
        "GWM"@
    }

    fn name(&self) -> (n: &str) {
        "GWM"
    }

    fn build_response(&self, request: &[u8]) -> (response: Option<Vec<u8>>) {
        respond(EcuId::Gwm, request)
    }
}

/// The instrument cluster.
pub struct IpcHandler;

impl EcuHandler for IpcHandler {
    open spec fn reply(&self, request: Seq<u8>) -> Option<Seq<u8>> {
        emulator_reply(EcuId::Ipc, request)
    }

    open spec fn spec_name(&self) -> Seq<char> {
        "IPC"@
    }

    fn name(&self) -> (n: &str) {
        "IPC"
    }

    fn build_response(&self, request: &[u8]) -> (response: Option<Vec<u8>>) {
        respond(EcuId::Ipc, request)
    }
}

/// The handler of one of the known ECUs.
pub struct DefaultHandler {
    ecu: EcuId,
}

impl DefaultHandler {
    /// The ECU that this handler stands in for.
    pub closed spec fn ecu(&self) -> EcuId {
        self.ecu
    }
}

impl EcuHandler for DefaultHandler {
    open spec fn reply(&self, request: Seq<u8>) -> Option<Seq<u8>> {
        emulator_reply(self.ecu(), request)
    }

    open spec fn spec_name(&self) -> Seq<char> {
        self.ecu().spec_name()
    }

    fn name(&self) -> (n: &str) {
        self.ecu.name()
    }

    fn build_response(&self, request: &[u8]) -> (response: Option<Vec<u8>>) {
        match self.ecu {
            EcuId::Bcm => BcmHandler.build_response(request),
            EcuId::Gwm => GwmHandler.build_response(request),
            EcuId::Ipc => IpcHandler.build_response(request),
        }
    }
}

/// The handler that stands in for `ecu`.
pub fn create_handler(ecu: EcuId) -> (handler: DefaultHandler)
    ensures
        handler.ecu() == ecu,
{
    DefaultHandler { ecu }
}

/// The position of the first ECU in `ecus` that listens on `tx_id`.
pub open spec fn first_listener(ecus: Seq<EcuId>, tx_id: u32) -> Option<int>
    decreases ecus.len(),
{
    if ecus.len() == 0 {
        None
    } else if ecus[0].spec_tx_id() == tx_id {
        Some(0int)
    } else {
        match first_listener(ecus.drop_first(), tx_id) {
            Some(i) => Some(i + 1),
            None => None,
        }
    }
}

/// No emulated ECU listens on an address that is none of the three that
/// the emulator knows.
pub proof fn lemma_no_listener(ecus: Seq<EcuId>, tx_id: u32)
    requires
        tx_id != EcuId::Bcm.spec_tx_id(),
        tx_id != EcuId::Gwm.spec_tx_id(),
        tx_id != EcuId::Ipc.spec_tx_id(),
    ensures
        first_listener(ecus, tx_id) is None,
    decreases ecus.len(),
{
    if ecus.len() > 0 {
        lemma_no_listener(ecus.drop_first(), tx_id);
    }
}

/// What the emulator answers to a request sent to `tx_id`: the reply of the
/// first emulated ECU that listens there; nothing where none does.
pub open spec fn routed_reply(ecus: Seq<EcuId>, tx_id: u32, request: Seq<u8>) -> Option<Seq<u8>> {
    match first_listener(ecus, tx_id) {
        Some(i) => emulator_reply(ecus[i], request),
        None => None,
    }
}

/// The emulator's routing: the set of ECUs that it answers for.
pub struct EcuEmulatorManager {
    emulated_ecus: Vec<EcuId>,
}

impl EcuEmulatorManager {
    /// The ECUs that this emulator answers for, in the order given.
    pub closed spec fn ecus(&self) -> Seq<EcuId> {
        self.emulated_ecus@
    }

    /// An emulator that answers for `ecus`.
    pub fn new(ecus: Vec<EcuId>) -> (manager: Self)
        ensures
            manager.ecus() == ecus@,
    {
        EcuEmulatorManager { emulated_ecus: ecus }
    }

    /// The ECUs that this emulator answers for.
    pub fn emulated_ecus(&self) -> (ecus: &[EcuId])
        ensures
            ecus@ == self.ecus(),
    {
        self.emulated_ecus.as_slice()
    }

    /// Whether a request to `tx_id` is answered here and not on the bus.
    pub fn handles(&self, tx_id: u32) -> (handled: bool)
        ensures
            handled == first_listener(self.ecus(), tx_id) is Some,
    {
        self.listener(tx_id).is_some()
    }

    fn listener(&self, tx_id: u32) -> (found: Option<EcuId>)
        ensures
            match first_listener(self.ecus(), tx_id) {
                Some(i) => 0 <= i < self.ecus().len() && found == Some(self.ecus()[i]),
                None => found is None,
            },
    {
        let n = self.emulated_ecus.len();
        let mut i: usize = n;
        let mut found: Option<EcuId> = None;
        while i > 0
            invariant
                n == self.emulated_ecus@.len(),
                i <= n,
                match first_listener(self.emulated_ecus@.subrange(i as int, n as int), tx_id) {
                    Some(k) => 0 <= k < n - i && found == Some(self.emulated_ecus@[i + k]),
                    None => found is None,
                },
            decreases i,
        {
            i -= 1;
            let ghost tail = self.emulated_ecus@.subrange(i as int, n as int);
            assert(tail.drop_first() =~= self.emulated_ecus@.subrange(i + 1, n as int));
            if self.emulated_ecus[i].tx_id() == tx_id {
                found = Some(self.emulated_ecus[i]);
            }
        }
        assert(self.emulated_ecus@.subrange(0, n as int) =~= self.emulated_ecus@);
        found
    }

    /// The frame that answers a frame read from the bus, for an emulator
    /// that listens on a channel of its own: where the frame is addressed
    /// to an emulated ECU and that ECU replies to its payload, the reply
    /// framed under the address that the ECU answers from; else nothing.
    pub fn answer(&self, msg: &PassThruMsg) -> (reply: Option<PassThruMsg>)
        requires
            msg.well_formed(),
        ensures
            match first_listener(self.ecus(), msg.spec_can_id() as u32) {
                Some(i) => match emulator_reply(self.ecus()[i], msg.spec_payload()) {
                    Some(bytes) => reply is Some && reply->Some_0.is_frame(
                        PROTOCOL_ISO15765,
                        ISO15765_FRAME_PAD,
                        self.ecus()[i].spec_rx_id(),
                        bytes,
                    ),
                    None => reply is None,
                },
                None => reply is None,
            },
    {
        let ecu = match self.listener(msg.can_id()) {
            Some(ecu) => ecu,
            None => {
                return None;
            },
        };
        match create_handler(ecu).build_response(msg.payload()) {
            Some(bytes) => {
                proof {
                    lemma_reply_len(ecu, msg.spec_payload());
                }
                Some(PassThruMsg::new_iso15765(ecu.rx_id(), bytes.as_slice()))
            },
            None => None,
        }
    }

    /// Answers a request to `tx_id` where an emulated ECU listens there;
    /// `None` where none does, and for an empty request.
    pub fn try_handle(&self, tx_id: u32, request: &[u8]) -> (response: Option<Vec<u8>>)
        ensures
            bytes_view(response) == routed_reply(self.ecus(), tx_id, request@),
    {
        match self.listener(tx_id) {
            Some(ecu) => create_handler(ecu).build_response(request),
            None => None,
        }
    }
}

/// The number of frames in one round of the broadcast.
pub const BROADCAST_COUNT: usize = 17;

/// The frames that a vehicle's other ECUs send and that a module on the
/// bench misses: identifier and eight bytes each, as read from a vehicle.
/// The heartbeats of the network management are among them.
pub const BROADCAST_MSGS: [(u32, [u8; 8]); 17] = [
    (0x070, [0xFF, 0x87, 0xD0, 0xFE, 0xFE, 0x3F, 0xFF, 0x03]),
    (0x0B0, [0x00, 0x04, 0x32, 0x03, 0xF8, 0x0D, 0x35, 0x00]),
    (0x0D0, [0xEC, 0x00, 0x42, 0x50, 0xE2, 0x69, 0xA8, 0x84]),
    (0x154, [0x27, 0xC7, 0x07, 0xED, 0x07, 0xD9, 0x07, 0xBD]),
    (0x1D0, [0x62, 0xFE, 0x00, 0x10, 0x80, 0x00, 0x80, 0x00]),
    (0x200, [0x01, 0x00, 0x00, 0x00, 0x03, 0x5E, 0x0E, 0x00]),
    (0x270, [0x00, 0xE8, 0x50, 0x00, 0x83, 0xFE, 0x03, 0x00]),
    (0x280, [0x00, 0x00, 0x03, 0xFE, 0x01, 0xFE, 0x13, 0xFE]),
    (0x2A0, [0x80, 0x81, 0x40, 0x00, 0x5D, 0x44, 0x66, 0x0D]),
    (0x2C0, [0x30, 0x00, 0x7D, 0xD0, 0x01, 0x40, 0x9A, 0x80]),
    (0x300, [0x01, 0x6B, 0x00, 0x00, 0x00, 0x00, 0x00, 0x00]),
    // network management of the body control module
    (0x400, [0x08, 0x01, 0x00, 0x00, 0x16, 0x04, 0x00, 0x01]),
    // network management of the gateway
    (0x407, [0x0A, 0x00, 0x00, 0x00, 0x00, 0x00, 0x00, 0x00]),
    // network management of the instrument cluster
    (0x460, [0x00, 0x00, 0x00, 0x00, 0x00, 0x00, 0x00, 0x00]),
    (0x030, [0x04, 0x00, 0x00, 0x00, 0x00, 0x1F, 0xFE, 0x70]),
    (0x130, [0x02, 0x00, 0x50, 0x04, 0x04, 0x00, 0x00, 0x00]),
    (0x140, [0x00, 0x6D, 0x83, 0x00, 0x00, 0x7F, 0x80, 0x00]),
];

/// The raw CAN envelope of the broadcast frame at `index`.
pub fn broadcast_frame(index: usize) -> (msg: PassThruMsg)
    requires
        index < BROADCAST_COUNT,
    ensures
        msg.is_frame(
            PROTOCOL_CAN,
            0,
            BROADCAST_MSGS@[index as int].0,
            BROADCAST_MSGS@[index as int].1@,
        ),
        msg.data_size == 12,
{
    let (can_id, data) = BROADCAST_MSGS[index];
    assert(raw_can_payload(data@) == data@);
    PassThruMsg::new_raw_can(can_id, data.as_slice())
}

} // verus!
