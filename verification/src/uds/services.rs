pub mod did;
pub mod ecu_addr;
pub mod routine;

use vstd::prelude::*;
use vstd::string::*;
use vstd::slice::*;
use crate::j2534::Channel;
use crate::j2534::types::MAX_PAYLOAD_SIZE;
use crate::text::{
    decode_utf8_lossy, hex_u8, joined, named_byte, push_hex_u8, push_joined, push_named_byte,
    trim_text, trimmed, utf8_lossy, views,
};
use crate::uds::client::{classify, is_exchange_outcome, is_settled, UdsClient};
use crate::uds::error::UdsError;
use crate::uds::keygen::{key_of, keygen_mki, DC0314_CONSTANTS};

verus! {

/// Diagnostic sessions of ISO 14229.
#[derive(Debug, Clone, Copy, PartialEq, Eq, Structural)]
pub enum DiagSession {
    Default,
    Programming,
    Extended,
}

impl DiagSession {
    /// The sub-function byte of this session.
    pub open spec fn spec_byte(self) -> u8 {
        match self {
            DiagSession::Default => 0x01,
            DiagSession::Programming => 0x02,
            DiagSession::Extended => 0x03,
        }
    }

    /// The sub-function byte of this session.
    pub fn to_byte(self) -> (byte: u8)
        ensures
            byte == self.spec_byte(),
    {
        match self {
            DiagSession::Default => 0x01,
            DiagSession::Programming => 0x02,
            DiagSession::Extended => 0x03,
        }
    }
}

/// Kinds of ECU reset.
#[derive(Debug, Clone, Copy, PartialEq, Eq, Structural)]
pub enum ResetType {
    HardReset,
    KeyOffOnReset,
    SoftReset,
}

impl ResetType {
    /// The sub-function byte of this reset.
    pub open spec fn spec_byte(self) -> u8 {
        match self {
            ResetType::HardReset => 0x01,
            ResetType::KeyOffOnReset => 0x02,
            ResetType::SoftReset => 0x03,
        }
    }

    /// The sub-function byte of this reset.
    pub fn to_byte(self) -> (byte: u8)
        ensures
            byte == self.spec_byte(),
    {
        match self {
            ResetType::HardReset => 0x01,
            ResetType::KeyOffOnReset => 0x02,
            ResetType::SoftReset => 0x03,
        }
    }
}

// Sub-functions of routine control
pub const ROUTINE_START: u8 = 0x01;
pub const ROUTINE_STOP: u8 = 0x02;
pub const ROUTINE_RESULTS: u8 = 0x03;

/// Seed and key levels of the platform's security access.
pub const SEED_LEVEL: u8 = 0x11;
pub const KEY_LEVEL: u8 = 0x12;

/// How long an ordinary request waits for its response, in milliseconds.
pub const REQUEST_TIMEOUT_MS: u32 = 3000;

/// How long a routine waits for its response, in milliseconds.
pub const ROUTINE_TIMEOUT_MS: u32 = 5000;

/// The high byte of a 16-bit identifier.
pub open spec fn high_byte(id: u16) -> u8 {
    (id as int / 256) as u8
}

/// The low byte of a 16-bit identifier.
pub open spec fn low_byte(id: u16) -> u8 {
    (id as int % 256) as u8
}

/// The two bytes of a 16-bit identifier, high byte first.
pub fn id_bytes(id: u16) -> (bytes: (u8, u8))
    ensures
        bytes.0 == high_byte(id),
        bytes.1 == low_byte(id),
{
    assert(id >> 8u16 == id / 256 && id & 0xFF == id % 256) by (bit_vector);
    ((id >> 8) as u8, (id & 0xFF) as u8)
}

/// The request that switches the session.
pub fn session_request(session: DiagSession) -> (request: Vec<u8>)
    ensures
        request@ == seq![0x10u8, session.spec_byte()],
{
    vec![0x10, session.to_byte()]
}

/// The request that keeps the session alive; with `suppress` the ECU does
/// not answer it.
pub fn tester_present_request(suppress: bool) -> (request: Vec<u8>)
    ensures
        request@ == seq![0x3Eu8, if suppress { 0x80u8 } else { 0x00u8 }],
{
    if suppress {
        vec![0x3E, 0x80]
    } else {
        vec![0x3E, 0x00]
    }
}

/// The request that reads the data under an identifier.
pub fn read_did_request(did_id: u16) -> (request: Vec<u8>)
    ensures
        request@ == seq![0x22u8, high_byte(did_id), low_byte(did_id)],
{
    let (hi, lo) = id_bytes(did_id);
    vec![0x22, hi, lo]
}

/// The request that asks for a seed at `level`.
pub fn seed_request(level: u8) -> (request: Vec<u8>)
    ensures
        request@ == seq![0x27u8, level],
{
    vec![0x27, level]
}

/// The request that sends `key` at `level`.
pub fn key_request(level: u8, key: &[u8]) -> (request: Vec<u8>)
    ensures
        request@ == seq![0x27u8, level] + key@,
{
    let mut request = vec![0x27, level];
    request.extend_from_slice(key);
    request
}

/// The request that runs the sub-function `sub_function` of a routine on
/// `data`.
pub fn routine_request(sub_function: u8, routine_id: u16, data: &[u8]) -> (request: Vec<u8>)
    ensures
        request@ == seq![0x31u8, sub_function, high_byte(routine_id), low_byte(routine_id)]
            + data@,
{
    let (hi, lo) = id_bytes(routine_id);
    let mut request = vec![0x31, sub_function, hi, lo];
    request.extend_from_slice(data);
    request
}

/// The request that resets the ECU.
pub fn reset_request(reset_type: ResetType) -> (request: Vec<u8>)
    ensures
        request@ == seq![0x11u8, reset_type.spec_byte()],
{
    vec![0x11, reset_type.to_byte()]
}

/// Whether `error` is the invalid-response error with the text `reason`.
pub open spec fn is_invalid(error: UdsError, reason: Seq<char>) -> bool {
    error is InvalidResponse && error->InvalidResponse_0@ == reason
}

/// Switches the ECU to `session`; gives the positive response.
pub fn diagnostic_session<C: Channel>(client: &UdsClient<C>, session: DiagSession) -> (outcome:
    Result<Vec<u8>, UdsError>)
    ensures
        is_exchange_outcome(0x10, outcome),
        is_settled(0x10, outcome),
{
    let request = session_request(session);
    client.send_recv(request.as_slice(), REQUEST_TIMEOUT_MS, false)
}

/// Asks the ECU whether it is there; gives the positive response.
pub fn tester_present<C: Channel>(client: &UdsClient<C>) -> (outcome: Result<Vec<u8>, UdsError>)
    ensures
        is_exchange_outcome(0x3E, outcome),
        is_settled(0x3E, outcome),
{
    let request = tester_present_request(false);
    client.send_recv(request.as_slice(), REQUEST_TIMEOUT_MS, false)
}

/// Keeps the session alive without asking for an answer.
pub fn tester_present_no_response<C: Channel>(client: &UdsClient<C>) -> (outcome: Result<
    (),
    UdsError,
>)
    ensures
        outcome is Err ==> outcome->Err_0 is TransportError,
{
    let request = tester_present_request(true);
    client.send_no_response(request.as_slice())
}

/// A response to a read by identifier must hold the service and the
/// identifier: three bytes at least.
pub fn check_did_response(response: Vec<u8>) -> (outcome: Result<Vec<u8>, UdsError>)
    ensures
        response@.len() >= 3 <==> outcome is Ok,
        outcome is Ok ==> outcome->Ok_0 == response,
        outcome is Err ==> is_invalid(outcome->Err_0, "ReadDID response too short"@),
{
    if response.len() < 3 {
        Err(UdsError::InvalidResponse(String::from_str("ReadDID response too short")))
    } else {
        Ok(response)
    }
}

/// What a read by identifier can end with: a positive response of three
/// bytes at least, what ends any request, or a response that is too short.
pub open spec fn is_read_outcome(outcome: Result<Vec<u8>, UdsError>) -> bool {
    match outcome {
        Ok(response) => response@.len() >= 3 && classify(0x22, response@) is Positive,
        Err(e) => is_exchange_outcome(0x22, Err(e)) || is_invalid(
            e,
            "ReadDID response too short"@,
        ),
    }
}

/// Reads the data under `did_id`; gives the whole positive response.
pub fn read_did<C: Channel>(client: &UdsClient<C>, did_id: u16) -> (outcome: Result<
    Vec<u8>,
    UdsError,
>)
    ensures
        is_read_outcome(outcome),
{
    let request = read_did_request(did_id);
    match client.send_recv(request.as_slice(), REQUEST_TIMEOUT_MS, false) {
        Ok(response) => check_did_response(response),
        Err(e) => Err(e),
    }
}

/// The data of a response to a read by identifier: what follows the
/// service and the identifier.
pub fn did_data(response: &[u8]) -> (data: Vec<u8>)
    requires
        response@.len() >= 3,
    ensures
        data@ == response@.subrange(3, response@.len() as int),
{
    slice_to_vec(slice_subrange(response, 3, response.len()))
}

/// A positive response to a read by identifier that holds the service and
/// the identifier.
pub open spec fn is_read_response(response: Seq<u8>) -> bool {
    response.len() >= 3 && classify(0x22, response) is Positive
}

/// The data in a response to a read by identifier: what follows the
/// service and the identifier.
pub open spec fn read_data_in(response: Seq<u8>) -> Seq<u8>
    recommends
        response.len() >= 3,
{
    response.subrange(3, response.len() as int)
}

/// Whether `data` is the data of some positive response to a read by
/// identifier.
pub open spec fn is_read_data(data: Seq<u8>) -> bool {
    exists|response: Seq<u8>| is_read_response(response) && data == #[trigger] read_data_in(response)
}

/// Whether `text` is what the data of some positive response to a read by
/// identifier spells: the data decoded as UTF-8 and trimmed.
pub open spec fn is_read_text(text: Seq<char>) -> bool {
    exists|response: Seq<u8>|
        is_read_response(response) && text == trimmed(utf8_lossy(#[trigger] read_data_in(response)))
}

/// Reads the data under `did_id`; gives the data alone.
pub fn read_did_data<C: Channel>(client: &UdsClient<C>, did_id: u16) -> (outcome: Result<
    Vec<u8>,
    UdsError,
>)
    ensures
        outcome matches Ok(data) ==> is_read_data(data@),
        outcome is Err ==> is_read_outcome(outcome),
{
    match read_did(client, did_id) {
        Ok(response) => {
            let data = did_data(response.as_slice());
            assert(is_read_response(response@) && data@ == read_data_in(response@));
            Ok(data)
        },
        Err(e) => Err(e),
    }
}

/// The text that data bytes spell: decoded as UTF-8 and trimmed.
pub fn data_text(data: &[u8]) -> (text: String)
    ensures
        text@ == trimmed(utf8_lossy(data@)),
{
    let decoded = decode_utf8_lossy(data);
    trim_text(decoded.as_str())
}

proof fn lemma_read_text(data: Seq<u8>)
    requires
        is_read_data(data),
    ensures
        is_read_text(trimmed(utf8_lossy(data))),
{
    let response = choose|response: Seq<u8>|
        is_read_response(response) && data == #[trigger] read_data_in(response);
    assert(trimmed(utf8_lossy(data)) == trimmed(utf8_lossy(read_data_in(response))));
}

/// Reads the vehicle identification number: the text that the data of the
/// positive response spells.
pub fn read_vin<C: Channel>(client: &UdsClient<C>) -> (outcome: Result<String, UdsError>)
    ensures
        outcome matches Ok(text) ==> is_read_text(text@),
        outcome is Err ==> is_read_outcome(Err::<Vec<u8>, UdsError>(outcome->Err_0)),
{
    match read_did_data(client, did::VIN) {
        Ok(data) => {
            proof {
                lemma_read_text(data@);
            }
            Ok(data_text(data.as_slice()))
        },
        Err(e) => Err(e),
    }
}

/// Reads a part number.
pub fn read_part_number<C: Channel>(client: &UdsClient<C>, did_id: u16) -> (outcome: Result<
    String,
    UdsError,
>)
    ensures
        outcome matches Ok(text) ==> is_read_text(text@),
        outcome is Err ==> is_read_outcome(Err::<Vec<u8>, UdsError>(outcome->Err_0)),
{
    match read_did_data(client, did_id) {
        Ok(data) => {
            proof {
                lemma_read_text(data@);
            }
            Ok(data_text(data.as_slice()))
        },
        Err(e) => Err(e),
    }
}

/// A response to a seed request must hold the service and the level: two
/// bytes at least.
pub fn check_seed_response(response: Vec<u8>) -> (outcome: Result<Vec<u8>, UdsError>)
    ensures
        response@.len() >= 2 <==> outcome is Ok,
        outcome is Ok ==> outcome->Ok_0 == response,
        outcome is Err ==> is_invalid(
            outcome->Err_0,
            "SecurityAccess seed response too short"@,
        ),
{
    if response.len() < 2 {
        Err(
            UdsError::InvalidResponse(
                String::from_str("SecurityAccess seed response too short"),
            ),
        )
    } else {
        Ok(response)
    }
}

/// Asks for a seed at `level`; gives the whole positive response.
pub fn security_request_seed<C: Channel>(client: &UdsClient<C>, level: u8) -> (outcome: Result<
    Vec<u8>,
    UdsError,
>)
    ensures
        outcome matches Ok(response) ==> response@.len() >= 2 && classify(0x27, response@)
            is Positive,
        outcome matches Err(e) ==> is_exchange_outcome(0x27, Err(e)) || is_invalid(
            e,
            "SecurityAccess seed response too short"@,
        ),
{
    let request = seed_request(level);
    match client.send_recv(request.as_slice(), REQUEST_TIMEOUT_MS, false) {
        Ok(response) => check_seed_response(response),
        Err(e) => Err(e),
    }
}

/// Sends `key` at `level`; gives the positive response.
pub fn security_send_key<C: Channel>(client: &UdsClient<C>, level: u8, key: &[u8]) -> (outcome:
    Result<Vec<u8>, UdsError>)
    requires
        key@.len() + 2 <= MAX_PAYLOAD_SIZE,
    ensures
        is_exchange_outcome(0x27, outcome),
        is_settled(0x27, outcome),
{
    let request = key_request(level, key);
    client.send_recv(request.as_slice(), REQUEST_TIMEOUT_MS, false)
}

/// The seed in a seed response: its third to fifth byte, most significant
/// first.
pub open spec fn seed_in(response: Seq<u8>) -> int
    recommends
        response.len() >= 5,
{
    response[2] as int * 0x1_0000 + response[3] as int * 0x100 + response[4] as int
}

/// The three bytes of a key, most significant first.
pub open spec fn key_bytes(key: u32) -> Seq<u8> {
    seq![
        (key as int / 0x1_0000 % 0x100) as u8,
        (key as int / 0x100 % 0x100) as u8,
        (key as int % 0x100) as u8,
    ]
}

/// What follows a seed response.
pub enum SeedStep {
    /// The response holds no seed of three bytes.
    TooShort,
    /// The seed is zero: the ECU is unlocked already.
    Unlocked,
    /// The request that sends the key for the seed.
    SendKey(Vec<u8>),
}

/// Decides what follows the seed response `response`: nothing where the
/// seed is zero, else the key request for `key_level` with the key that the
/// engine gives for the seed under `constants`.
pub fn seed_step(response: &[u8], key_level: u8, constants: &[u8; 5]) -> (step: SeedStep)
    ensures
        response@.len() < 5 <==> step is TooShort,
        response@.len() >= 5 && seed_in(response@) == 0 <==> step is Unlocked,
        step matches SeedStep::SendKey(request) ==> request@ == seq![0x27u8, key_level]
            + key_bytes(key_of(seed_in(response@) as u32, constants@)),
{
    if response.len() < 5 {
        return SeedStep::TooShort;
    }
    let s0 = response[2];
    let s1 = response[3];
    let s2 = response[4];
    assert(((s0 as u32) << 16u32) | ((s1 as u32) << 8u32) | (s2 as u32) == (s0 as u32) * 0x1_0000
        + (s1 as u32) * 0x100 + (s2 as u32)) by (bit_vector);
    let seed = ((s0 as u32) << 16) | ((s1 as u32) << 8) | (s2 as u32);
    if seed == 0 {
        return SeedStep::Unlocked;
    }
    let key = keygen_mki(seed, constants);
    assert((key >> 16u32) & 0xFF == key / 0x1_0000 % 0x100 && (key >> 8u32) & 0xFF == key / 0x100
        % 0x100 && key & 0xFF == key % 0x100) by (bit_vector);
    let bytes = [((key >> 16) & 0xFF) as u8, ((key >> 8) & 0xFF) as u8, (key & 0xFF) as u8];
    assert(bytes@ =~= key_bytes(key));
    SeedStep::SendKey(key_request(key_level, bytes.as_slice()))
}

/// What the seed response settles without a key: a response without a seed
/// of three bytes is invalid, a seed of zeros means that the ECU is unlocked
/// already, and any other seed settles nothing until its key is answered.
pub fn settled_by_seed(step: &SeedStep) -> (settled: Option<Result<bool, UdsError>>)
    ensures
        *step is TooShort ==> settled is Some && settled->Some_0 is Err && is_invalid(
            settled->Some_0->Err_0,
            "Seed response too short, expected at least 5 bytes"@,
        ),
        *step is Unlocked ==> settled == Some(Ok::<bool, UdsError>(false)),
        *step is SendKey ==> settled is None,
{
    match step {
        SeedStep::TooShort => Some(
            Err(
                UdsError::InvalidResponse(
                    String::from_str("Seed response too short, expected at least 5 bytes"),
                ),
            ),
        ),
        SeedStep::Unlocked => Some(Ok(false)),
        SeedStep::SendKey(_) => None,
    }
}

/// What the answer to the key means: a positive response is the unlock,
/// anything else is the failure as it came.
pub fn key_outcome(answer: Result<Vec<u8>, UdsError>) -> (outcome: Result<bool, UdsError>)
    ensures
        answer is Ok ==> outcome == Ok::<bool, UdsError>(true),
        answer matches Err(e) ==> outcome == Err::<bool, UdsError>(e),
{
    match answer {
        Ok(_) => Ok(true),
        Err(e) => Err(e),
    }
}

/// Unlocks the ECU: asks for a seed at `seed_level`, computes the key and
/// sends it at `key_level`. Gives `true` where a key was sent and accepted,
/// `false` where the seed was zero and no key was needed.
pub fn security_access<C: Channel>(
    client: &UdsClient<C>,
    seed_level: u8,
    key_level: u8,
    constants: &[u8; 5],
) -> (outcome: Result<bool, UdsError>)
    ensures
        outcome matches Err(e) ==> is_exchange_outcome(0x27, Err(e)) || is_invalid(
            e,
            "SecurityAccess seed response too short"@,
        ) || is_invalid(e, "Seed response too short, expected at least 5 bytes"@),
{
    let seed_response = match security_request_seed(client, seed_level) {
        Ok(response) => response,
        Err(e) => {
            return Err(e);
        },
    };
    let step = seed_step(seed_response.as_slice(), key_level, constants);
    match settled_by_seed(&step) {
        Some(settled) => settled,
        None => match step {
            SeedStep::SendKey(request) => key_outcome(
                client.send_recv(request.as_slice(), REQUEST_TIMEOUT_MS, false),
            ),
            _ => Ok(false),
        },
    }
}

/// What a routine answered.
#[derive(Debug, Clone)]
pub struct RoutineResult {
    pub routine_id: u16,
    /// First byte behind the routine identifier, if there is one.
    pub status: Option<u8>,
    /// Second byte, if there is one.
    pub result: Option<u8>,
    /// Third byte, if there is one.
    pub error: Option<u8>,
    /// All bytes behind the routine identifier.
    pub raw_data: Vec<u8>,
    /// What the bytes say, in words.
    pub description: String,
}

/// The bytes of a routine response behind the service, the sub-function and
/// the routine identifier.
pub open spec fn routine_data(response: Seq<u8>) -> Seq<u8> {
    if response.len() > 4 {
        response.subrange(4, response.len() as int)
    } else {
        Seq::<u8>::empty()
    }
}

/// The byte at `i`, if there is one.
pub open spec fn byte_at(data: Seq<u8>, i: int) -> Option<u8> {
    if 0 <= i < data.len() {
        Some(data[i])
    } else {
        None
    }
}

/// The bytes of a routine response behind its first four.
pub fn routine_payload(response: &[u8]) -> (data: Vec<u8>)
    ensures
        data@ == routine_data(response@),
{
    if response.len() > 4 {
        slice_to_vec(slice_subrange(response, 4, response.len()))
    } else {
        Vec::new()
    }
}

fn get_byte(data: &Vec<u8>, i: usize) -> (byte: Option<u8>)
    ensures
        byte == byte_at(data@, i as int),
{
    if i < data.len() {
        Some(data[i])
    } else {
        None
    }
}

/// Reads the response of a routine: the bytes behind the routine
/// identifier, the first three of them as status, result and error, and
/// what they say in words.
pub fn routine_result(routine_id: u16, response: &[u8]) -> (result: RoutineResult)
    ensures
        result.routine_id == routine_id,
        result.raw_data@ == routine_data(response@),
        result.status == byte_at(routine_data(response@), 0),
        result.result == byte_at(routine_data(response@), 1),
        result.error == byte_at(routine_data(response@), 2),
        result.description@ == routine_text(
            routine_id,
            result.status,
            result.result,
            result.error,
        ),
{
    let raw_data = routine_payload(response);
    let status = get_byte(&raw_data, 0);
    let result = get_byte(&raw_data, 1);
    let error = get_byte(&raw_data, 2);
    let description = describe_routine_result(routine_id, status, result, error);
    RoutineResult { routine_id, status, result, error, raw_data, description }
}

/// Whether `result` is what some positive response to a request for the
/// routine `routine_id` reads as: the bytes behind the routine identifier,
/// the first three of them as status, result and error, and their text.
pub open spec fn is_routine_answer(result: RoutineResult, routine_id: u16) -> bool {
    &&& result.routine_id == routine_id
    &&& result.status == byte_at(result.raw_data@, 0)
    &&& result.result == byte_at(result.raw_data@, 1)
    &&& result.error == byte_at(result.raw_data@, 2)
    &&& result.description@ == routine_text(
        routine_id,
        result.status,
        result.result,
        result.error,
    )
    &&& exists|response: Seq<u8>|
        classify(0x31, response) is Positive && result.raw_data@ == #[trigger] routine_data(
            response,
        )
}

/// Runs the sub-function `sub_function` of the routine `routine_id` on
/// `data` and reads its response.
pub fn routine_control<C: Channel>(
    client: &UdsClient<C>,
    sub_function: u8,
    routine_id: u16,
    data: &[u8],
    wait_pending: bool,
) -> (outcome: Result<RoutineResult, UdsError>)
    requires
        data@.len() + 4 <= MAX_PAYLOAD_SIZE,
    ensures
        outcome matches Ok(result) ==> is_routine_answer(result, routine_id),
        outcome matches Err(e) ==> is_exchange_outcome(0x31, Err(e)),
{
    let request = routine_request(sub_function, routine_id, data);
    match client.send_recv(request.as_slice(), ROUTINE_TIMEOUT_MS, wait_pending) {
        Ok(response) => {
            let result = routine_result(routine_id, response.as_slice());
            assert(result.raw_data@ == routine_data(response@));
            Ok(result)
        },
        Err(e) => Err(e),
    }
}

/// Starts the routine `routine_id` on `data` and reads its response.
pub fn routine_start<C: Channel>(
    client: &UdsClient<C>,
    routine_id: u16,
    data: &[u8],
    wait_pending: bool,
) -> (outcome: Result<RoutineResult, UdsError>)
    requires
        data@.len() + 4 <= MAX_PAYLOAD_SIZE,
    ensures
        outcome matches Ok(result) ==> is_routine_answer(result, routine_id),
        outcome matches Err(e) ==> is_exchange_outcome(0x31, Err(e)),
{
    routine_control(client, ROUTINE_START, routine_id, data, wait_pending)
}

/// Resets the ECU; gives the positive response.
pub fn ecu_reset<C: Channel>(client: &UdsClient<C>, reset_type: ResetType) -> (outcome: Result<
    Vec<u8>,
    UdsError,
>)
    ensures
        is_exchange_outcome(0x11, outcome),
        is_settled(0x11, outcome),
{
    let request = reset_request(reset_type);
    client.send_recv(request.as_slice(), REQUEST_TIMEOUT_MS, false)
}

/// `label`, then the byte as `0x` and two hexadecimal digits.
pub open spec fn labelled_byte(label: Seq<char>, byte: u8) -> Seq<char> {
    label + "0x"@ + hex_u8(byte)
}

/// One text where the byte is there, none where it is not.
pub open spec fn optional_part(byte: Option<u8>, text: spec_fn(u8) -> Seq<char>) -> Seq<Seq<char>> {
    match byte {
        Some(b) => seq![text(b)],
        None => Seq::<Seq<char>>::empty(),
    }
}

/// The parts joined by `separator`, or `OK` where there is none.
pub open spec fn parts_or_ok(parts: Seq<Seq<char>>, separator: Seq<char>) -> Seq<char> {
    if parts.len() == 0 {
        "OK"@
    } else {
        joined(parts, separator)
    }
}

/// What the bytes of a routine without a decoding of its own say: each
/// byte that is there with its label, separated by commas.
pub open spec fn plain_routine_text(status: Option<u8>, result: Option<u8>, error: Option<u8>) -> Seq<
    char,
> {
    parts_or_ok(
        optional_part(status, |b: u8| labelled_byte("status="@, b)) + optional_part(
            result,
            |b: u8| labelled_byte("result="@, b),
        ) + optional_part(error, |b: u8| labelled_byte("error="@, b)),
        ", "@,
    )
}

/// The status of the routine that configures Linux.
pub open spec fn status_name_6038(status: u8) -> Seq<char> {
    match status {
        0x10 => "Routine finished"@,
        0x20 => "Routine completed"@,
        0x21 => "Routine aborted"@,
        0x22 => "Routine active"@,
        _ => "Unknown status"@,
    }
}

/// The result of the routine that configures Linux.
pub open spec fn result_name_6038(result: u8) -> Seq<char> {
    match result {
        0x01 => "Completed"@,
        0x02 => "In progress"@,
        0x03 => "Failed to configure"@,
        _ => "Unknown result"@,
    }
}

/// What failed, by the bit of the error byte that reports it, lowest bit
/// first.
pub open spec fn error_name_6038(bit: int) -> Seq<char> {
    if bit == 0 {
        "Boot parameter"@
    } else if bit == 1 {
        "Symlinks"@
    } else if bit == 2 {
        "Start-up configuration XML"@
    } else if bit == 3 {
        "Manifest symlinks"@
    } else if bit == 4 {
        "DVD region"@
    } else if bit == 5 {
        "Polar switch"@
    } else if bit == 6 {
        "Gracenotes"@
    } else {
        "Application manager LCF"@
    }
}

/// Whether bit `bit` of `byte` is set.
pub open spec fn bit_set(byte: u8, bit: int) -> bool {
    (byte as int / pow2(bit)) % 2 == 1
}

/// Two to the power `bit`, for the bits of a byte.
pub open spec fn pow2(bit: int) -> int {
    if bit <= 0 {
        1
    } else if bit == 1 {
        2
    } else if bit == 2 {
        4
    } else if bit == 3 {
        8
    } else if bit == 4 {
        16
    } else if bit == 5 {
        32
    } else if bit == 6 {
        64
    } else {
        128
    }
}

/// The names that `name` gives to the set bits among the lowest `bits` of
/// `byte`, lowest bit first.
pub open spec fn set_bit_names(byte: u8, bits: int, name: spec_fn(int) -> Seq<char>) -> Seq<
    Seq<char>,
>
    decreases bits,
{
    if bits <= 0 {
        Seq::<Seq<char>>::empty()
    } else if bit_set(byte, bits - 1) {
        set_bit_names(byte, bits - 1, name).push(name(bits - 1))
    } else {
        set_bit_names(byte, bits - 1, name)
    }
}

/// What the error byte of the routine that configures Linux says.
pub open spec fn errors_text_6038(error: u8) -> Seq<char> {
    if error == 0 {
        "No errors"@
    } else {
        "Errors: "@ + joined(set_bit_names(error, 8, |bit: int| error_name_6038(bit)), ", "@)
    }
}

/// What the bytes of the routine that configures Linux say.
pub open spec fn text_6038(status: Option<u8>, result: Option<u8>, error: Option<u8>) -> Seq<char> {
    parts_or_ok(
        optional_part(status, |b: u8| "Status: "@ + named_byte(status_name_6038(b), b))
            + optional_part(result, |b: u8| "Result: "@ + named_byte(result_name_6038(b), b))
            + optional_part(error, |b: u8| errors_text_6038(b)),
        " | "@,
    )
}

/// The status of the routine that learns the VIN.
pub open spec fn status_name_0404(status: u8) -> Seq<char> {
    match status {
        0x20 => "Routine completed"@,
        0x21 => "Routine aborted"@,
        0x22 => "Routine active"@,
        _ => "Unknown status"@,
    }
}

/// What the status byte of the routine that learns the VIN says.
pub open spec fn text_0404(status: Option<u8>) -> Seq<char> {
    match status {
        Some(s) => named_byte(status_name_0404(s), s),
        None => "OK"@,
    }
}

/// What the bytes of a routine response say.
pub open spec fn routine_text(
    routine_id: u16,
    status: Option<u8>,
    result: Option<u8>,
    error: Option<u8>,
) -> Seq<char> {
    if routine_id == 0x6038 {
        text_6038(status, result, error)
    } else if routine_id == 0x0404 {
        text_0404(status)
    } else {
        plain_routine_text(status, result, error)
    }
}

fn labelled(label: &str, byte: u8) -> (text: String)
    ensures
        text@ == labelled_byte(label@, byte),
{
    let mut text = String::from_str(label);
    text.append("0x");
    push_hex_u8(&mut text, byte);
    text
}

fn join_or_ok(parts: &Vec<String>, separator: &str) -> (text: String)
    ensures
        text@ == parts_or_ok(views(parts@), separator@),
{
    if parts.len() == 0 {
        String::from_str("OK")
    } else {
        let mut text = String::new();
        push_joined(&mut text, parts, separator);
        assert(text@ =~= joined(views(parts@), separator@));
        text
    }
}

/// Says in words what the bytes of a routine response mean.
pub fn describe_routine_result(
    routine_id: u16,
    status: Option<u8>,
    result: Option<u8>,
    error: Option<u8>,
) -> (text: String)
    ensures
        text@ == routine_text(routine_id, status, result, error),
{
    if routine_id == 0x6038 {
        describe_6038(status, result, error)
    } else if routine_id == 0x0404 {
        describe_0404(status)
    } else {
        let mut parts: Vec<String> = Vec::new();
        let ghost status_part = optional_part(status, |b: u8| labelled_byte("status="@, b));
        let ghost result_part = optional_part(result, |b: u8| labelled_byte("result="@, b));
        let ghost error_part = optional_part(error, |b: u8| labelled_byte("error="@, b));
        match status {
            Some(s) => {
                parts.push(labelled("status=", s));
            },
            None => {},
        }
        assert(views(parts@) =~= status_part);
        match result {
            Some(r) => {
                parts.push(labelled("result=", r));
            },
            None => {},
        }
        assert(views(parts@) =~= status_part + result_part);
        match error {
            Some(e) => {
                parts.push(labelled("error=", e));
            },
            None => {},
        }
        assert(views(parts@) =~= status_part + result_part + error_part);
        join_or_ok(&parts, ", ")
    }
}

fn status_6038(status: u8) -> (name: &'static str)
    ensures
        name@ == status_name_6038(status),
{
    match status {
        0x10 => "Routine finished",
        0x20 => "Routine completed",
        0x21 => "Routine aborted",
        0x22 => "Routine active",
        _ => "Unknown status",
    }
}

fn result_6038(result: u8) -> (name: &'static str)
    ensures
        name@ == result_name_6038(result),
{
    match result {
        0x01 => "Completed",
        0x02 => "In progress",
        0x03 => "Failed to configure",
        _ => "Unknown result",
    }
}

fn error_6038(bit: u8) -> (name: &'static str)
    ensures
        name@ == error_name_6038(bit as int),
{
    if bit == 0 {
        "Boot parameter"
    } else if bit == 1 {
        "Symlinks"
    } else if bit == 2 {
        "Start-up configuration XML"
    } else if bit == 3 {
        "Manifest symlinks"
    } else if bit == 4 {
        "DVD region"
    } else if bit == 5 {
        "Polar switch"
    } else if bit == 6 {
        "Gracenotes"
    } else {
        "Application manager LCF"
    }
}

/// Whether bit `bit` of `byte` is set.
pub fn has_bit(byte: u8, bit: u8) -> (set: bool)
    requires
        bit < 8,
    ensures
        set == bit_set(byte, bit as int),
{
    assert((byte >> bit) & 1 == 1 <==> (byte / (1u8 << bit)) % 2 == 1) by (bit_vector)
        requires
            bit < 8,
    ;
    assert((1u8 << bit) as int == pow2(bit as int)) by {
        assert(1u8 << 0u8 == 1 && 1u8 << 1u8 == 2 && 1u8 << 2u8 == 4 && 1u8 << 3u8 == 8 && 1u8
            << 4u8 == 16 && 1u8 << 5u8 == 32 && 1u8 << 6u8 == 64 && 1u8 << 7u8 == 128)
            by (bit_vector);
    }
    (byte >> bit) & 1 == 1
}

fn errors_6038(error: u8) -> (text: String)
    ensures
        text@ == errors_text_6038(error),
{
    let mut names: Vec<String> = Vec::new();
    let mut bit: u8 = 0;
    while bit < 8
        invariant
            bit <= 8,
            views(names@) == set_bit_names(error, bit as int, |b: int| error_name_6038(b)),
        decreases 8 - bit,
    {
        if has_bit(error, bit) {
            names.push(String::from_str(error_6038(bit)));
            assert(views(names@) =~= set_bit_names(
                error,
                bit + 1,
                |b: int| error_name_6038(b),
            ));
        }
        bit += 1;
    }
    if error == 0 {
        String::from_str("No errors")
    } else {
        let mut text = String::from_str("Errors: ");
        push_joined(&mut text, &names, ", ");
        text
    }
}

/// Says what the bytes of the routine that configures Linux mean.
pub fn describe_6038(status: Option<u8>, result: Option<u8>, error: Option<u8>) -> (text: String)
    ensures
        text@ == text_6038(status, result, error),
{
    let mut parts: Vec<String> = Vec::new();
    let ghost status_part = optional_part(
        status,
        |b: u8| "Status: "@ + named_byte(status_name_6038(b), b),
    );
    let ghost result_part = optional_part(
        result,
        |b: u8| "Result: "@ + named_byte(result_name_6038(b), b),
    );
    let ghost error_part = optional_part(error, |b: u8| errors_text_6038(b));
    match status {
        Some(s) => {
            let mut part = String::from_str("Status: ");
            push_named_byte(&mut part, status_6038(s), s);
            parts.push(part);
        },
        None => {},
    }
    assert(views(parts@) =~= status_part);
    match result {
        Some(r) => {
            let mut part = String::from_str("Result: ");
            push_named_byte(&mut part, result_6038(r), r);
            parts.push(part);
        },
        None => {},
    }
    assert(views(parts@) =~= status_part + result_part);
    match error {
        Some(e) => {
            parts.push(errors_6038(e));
        },
        None => {},
    }
    assert(views(parts@) =~= status_part + result_part + error_part);
    join_or_ok(&parts, " | ")
}

/// Says what the status byte of the routine that learns the VIN means.
pub fn describe_0404(status: Option<u8>) -> (text: String)
    ensures
        text@ == text_0404(status),
{
    match status {
        Some(s) => {
            let name = match s {
                0x20 => "Routine completed",
                0x21 => "Routine aborted",
                0x22 => "Routine active",
                _ => "Unknown status",
            };
            let mut text = String::new();
            push_named_byte(&mut text, name, s);
            assert(text@ =~= named_byte(status_name_0404(s), s));
            text
        },
        None => String::from_str("OK"),
    }
}

/// What the prerequisite flow can fail with: what ends one of its requests,
/// or a seed response that is too short.
pub open spec fn is_flow_error(e: UdsError) -> bool {
    ||| is_exchange_outcome(0x3E, Err(e))
    ||| is_exchange_outcome(0x10, Err(e))
    ||| is_exchange_outcome(0x27, Err(e))
    ||| is_invalid(e, "SecurityAccess seed response too short"@)
    ||| is_invalid(e, "Seed response too short, expected at least 5 bytes"@)
}

/// The sequence that precedes a secured operation: tester-present, the
/// switch to the extended session and, where `needs_security` is set, the
/// security access with the platform's constants. The first failure ends
/// it. Without the security access only the first two requests can fail.
pub fn sdd_prerequisite_flow<C: Channel>(client: &UdsClient<C>, needs_security: bool) -> (outcome:
    Result<(), UdsError>)
    ensures
        outcome matches Err(e) ==> is_flow_error(e),
        outcome matches Err(e) ==> !needs_security ==> is_exchange_outcome(0x3E, Err(e))
            || is_exchange_outcome(0x10, Err(e)),
{
    match tester_present(client) {
        Ok(_) => {},
        Err(e) => {
            return Err(e);
        },
    }
    match diagnostic_session(client, DiagSession::Extended) {
        Ok(_) => {},
        Err(e) => {
            return Err(e);
        },
    }
    if needs_security {
        match security_access(client, SEED_LEVEL, KEY_LEVEL, &DC0314_CONSTANTS) {
            Ok(_) => {},
            Err(e) => {
                return Err(e);
            },
        }
    }
    Ok(())
}

/// Runs the prerequisite flow, then starts the routine `routine_id` on
/// `data`.
pub fn execute_routine_sdd<C: Channel>(
    client: &UdsClient<C>,
    routine_id: u16,
    data: &[u8],
    needs_security: bool,
    needs_pending: bool,
) -> (outcome: Result<RoutineResult, UdsError>)
    requires
        data@.len() + 4 <= MAX_PAYLOAD_SIZE,
    ensures
        outcome matches Ok(result) ==> is_routine_answer(result, routine_id),
        outcome matches Err(e) ==> is_flow_error(e) || is_exchange_outcome(0x31, Err(e)),
{
    match sdd_prerequisite_flow(client, needs_security) {
        Ok(()) => {},
        Err(e) => {
            return Err(e);
        },
    }
    routine_start(client, routine_id, data, needs_pending)
}

/// What enabling the secure shell gave.
#[derive(Debug, Clone)]
pub struct SshResult {
    pub success: bool,
    pub ip_address: String,
    pub message: String,
}

/// The message of a secure shell that was enabled, with what the routine
/// said.
pub open spec fn ssh_message(description: Seq<char>) -> Seq<char> {
    "SSH ENABLED — Connect: root@192.168.103.11 | "@ + description
}

/// Enables the secure shell of the infotainment module: the prerequisite
/// flow with security access, then the routine that enables it, whose
/// response may be pending.
pub fn enable_ssh<C: Channel>(client: &UdsClient<C>) -> (outcome: Result<SshResult, UdsError>)
    ensures
        outcome matches Ok(ssh) ==> ssh.success && ssh.ip_address@ == "192.168.103.11"@ && exists|
            status: Option<u8>,
            result: Option<u8>,
            error: Option<u8>,
        |
            ssh.message@ == ssh_message(
                #[trigger] routine_text(routine::SSH_ENABLE, status, result, error),
            ),
        outcome matches Err(e) ==> is_flow_error(e) || is_exchange_outcome(0x31, Err(e)),
{
    let argument: [u8; 1] = [0x01];
    let result = match execute_routine_sdd(
        client,
        routine::SSH_ENABLE,
        argument.as_slice(),
        true,
        true,
    ) {
        Ok(result) => result,
        Err(e) => {
            return Err(e);
        },
    };
    let mut message = String::from_str("SSH ENABLED — Connect: root@192.168.103.11 | ");
    message.append(result.description.as_str());
    Ok(SshResult { success: true, ip_address: String::from_str("192.168.103.11"), message })
}

} // verus!
