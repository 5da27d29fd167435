//! One request to one ECU: answered by the emulator where it stands in for
//! the ECU, else sent on the channel, and repeated while the ECU is busy.

use vstd::prelude::*;
use vstd::string::*;
use vstd::slice::*;
use crate::commands::format::did_name;
use crate::ecu_emulator::{
    first_listener, lemma_no_listener, lemma_refusal_reason, lemma_reply_shape, negative,
    routed_reply, EcuEmulatorManager,
};
use crate::j2534::Channel;
use crate::j2534::types::MAX_PAYLOAD_SIZE;
use crate::text::{push_decimal, push_hex_u16};
use crate::uds::client::{
    classify, exchange, is_exchange_outcome, is_settled, log_entry, LogDirection, LogSink,
};
use crate::uds::error::{nrc_of, NegativeResponseCode, UdsError};
use crate::uds::services::{ecu_addr, high_byte, low_byte, read_did_request};

verus! {

/// How often a request is repeated while the ECU is busy.
pub const MAX_BUSY_RETRIES: u32 = 6;

/// The pause before a request is repeated, in milliseconds.
pub const BUSY_PAUSE_MS: u32 = 1000;

/// The deadline of an ordinary request, in milliseconds.
pub const REQUEST_DEADLINE_MS: u32 = 5000;

/// The deadline of a request whose response may be pending, in
/// milliseconds.
pub const PENDING_REQUEST_DEADLINE_MS: u32 = 60000;

/// Hands a record of `data` to the log.
pub(crate) fn note<L: LogSink>(log: &L, direction: LogDirection, data: &[u8], description: &str) {
    log.emit(log_entry(direction, data, description));
}

/// Hands a record without data to the log.
pub(crate) fn remark<L: LogSink>(log: &L, direction: LogDirection, description: &str) {
    let none: [u8; 0] = [];
    log.emit(log_entry(direction, none.as_slice(), description));
}

/// Whether an outcome is the ECU's word that it is busy.
pub open spec fn is_busy(outcome: Result<Vec<u8>, UdsError>) -> bool {
    outcome is Err && outcome->Err_0 is NegativeResponse && outcome->Err_0->nrc
        == NegativeResponseCode::BusyRepeatRequest
}

/// Whether the request is sent again after the attempt `attempt` (the
/// first is attempt zero) ended with `outcome`: the ECU was busy and the
/// retries are not used up.
pub open spec fn retried(attempt: u32, outcome: Result<Vec<u8>, UdsError>) -> bool {
    attempt < MAX_BUSY_RETRIES && is_busy(outcome)
}

/// Decides whether the request is sent again.
pub fn retry_after(attempt: u32, outcome: &Result<Vec<u8>, UdsError>) -> (again: bool)
    ensures
        again == retried(attempt, *outcome),
{
    if attempt >= MAX_BUSY_RETRIES {
        return false;
    }
    match outcome {
        Err(UdsError::NegativeResponse { service_id: _, nrc }) => nrc.is_busy(),
        _ => false,
    }
}

/// What the emulator's reply means to the request: a negative response is
/// the failure that it names, anything else is the response.
pub open spec fn is_emulated_outcome(outcome: Result<Vec<u8>, UdsError>, reply: Seq<u8>) -> bool {
    if is_refusal(reply) {
        outcome is Err && outcome->Err_0 == (UdsError::NegativeResponse {
            service_id: reply[1],
            nrc: nrc_of(reply[2]),
        })
    } else {
        outcome is Ok && outcome->Ok_0@ == reply
    }
}

/// Reads the emulator's reply as a wire response would be read.
pub fn settle_emulated(reply: Vec<u8>) -> (outcome: Result<Vec<u8>, UdsError>)
    ensures
        is_emulated_outcome(outcome, reply@),
{
    if reply.len() >= 3 && reply[0] == 0x7F {
        Err(
            UdsError::NegativeResponse {
                service_id: reply[1],
                nrc: NegativeResponseCode::from_byte(reply[2]),
            },
        )
    } else {
        Ok(reply)
    }
}

/// What the emulator answers to a request, if it stands in for the ECU at
/// `tx_id`.
pub open spec fn emulated_reply(
    emulator: Option<&EcuEmulatorManager>,
    tx_id: u32,
    request: Seq<u8>,
) -> Option<Seq<u8>> {
    match emulator {
        Some(manager) => routed_reply(manager.ecus(), tx_id, request),
        None => None,
    }
}

/// Whether a reply is a negative response.
pub open spec fn is_refusal(reply: Seq<u8>) -> bool {
    reply.len() >= 3 && reply[0] == 0x7F
}

/// Where the emulator stands in for the ECU at `tx_id`, its reply is
/// positive and does not open with 0x7F, or it is the negative response to
/// the request's service for one of the emulator's two reasons.
pub proof fn lemma_emulated_reply(
    emulator: Option<&EcuEmulatorManager>,
    tx_id: u32,
    request: Seq<u8>,
)
    ensures
        emulated_reply(emulator, tx_id, request) matches Some(reply) ==> request.len() >= 1 && (
        if is_refusal(reply) {
            reply == negative(request[0], 0x11) || reply == negative(request[0], 0x31)
        } else {
            reply.len() >= 1 && reply[0] as int == request[0] as int + 0x40
        }),
{
    if emulated_reply(emulator, tx_id, request) is Some {
        let manager = emulator->Some_0;
        let i = first_listener(manager.ecus(), tx_id)->Some_0;
        lemma_reply_shape(manager.ecus()[i], request);
        lemma_refusal_reason(manager.ecus()[i], request);
    }
}

/// The emulator never stands in for the infotainment module: a request to
/// it always goes out on the channel.
pub proof fn lemma_imc_is_never_emulated(emulator: Option<&EcuEmulatorManager>, request: Seq<u8>)
    ensures
        emulated_reply(emulator, ecu_addr::IMC_TX, request) is None,
{
    if emulator is Some {
        lemma_no_listener(emulator->Some_0.ecus(), ecu_addr::IMC_TX);
    }
}

/// The request that asks for the extended session.
pub open spec fn extended_session_request() -> Seq<u8> {
    seq![0x10u8, 0x03u8]
}

/// Every emulated ECU agrees to the extended session.
pub proof fn lemma_emulated_session(emulator: Option<&EcuEmulatorManager>, tx_id: u32)
    ensures
        emulated_reply(emulator, tx_id, extended_session_request()) matches Some(reply)
            ==> reply == seq![0x50u8, 0x03u8, 0x00u8, 0x19u8, 0x01u8, 0xF4u8] && !is_refusal(reply),
{
    let request = extended_session_request();
    assert(request.len() == 2 && request[0] == 0x10 && request[1] == 0x03);
}

/// One attempt on the channel: the request is written and its response
/// awaited, for sixty seconds where it may be pending, else for five.
pub fn send_uds_request_once<C: Channel, L: LogSink>(
    log: &L,
    channel: &C,
    tx_id: u32,
    request: &[u8],
    wait_pending: bool,
) -> (outcome: Result<Vec<u8>, UdsError>)
    requires
        1 <= request@.len() <= MAX_PAYLOAD_SIZE,
    ensures
        is_exchange_outcome(request@[0], outcome),
        is_settled(request@[0], outcome),
{
    let deadline = if wait_pending {
        PENDING_REQUEST_DEADLINE_MS
    } else {
        REQUEST_DEADLINE_MS
    };
    exchange(channel, log, tx_id, request, deadline)
}

/// What the attempts on the channel end in, given what each attempt ended
/// in, in their order: each attempt is a wait that the frames read settle;
/// every attempt but the last found the ECU busy; there are seven attempts
/// at most, the first and six retries; the last attempt is the outcome; and
/// a busy ECU is the outcome only where all seven attempts found it busy.
pub open spec fn attempts_settle(
    sid: u8,
    attempts: Seq<Result<Vec<u8>, UdsError>>,
    outcome: Result<Vec<u8>, UdsError>,
) -> bool {
    &&& 1 <= attempts.len() <= MAX_BUSY_RETRIES + 1
    &&& forall|i: int| 0 <= i < attempts.len() ==> is_settled(sid, #[trigger] attempts[i])
    &&& forall|i: int| 0 <= i < attempts.len() - 1 ==> is_busy(#[trigger] attempts[i])
    &&& outcome == attempts.last()
    &&& is_busy(outcome) ==> attempts.len() == MAX_BUSY_RETRIES + 1
}

/// Whether `outcome` is what some run of attempts on the channel ends in.
pub open spec fn is_retried_outcome(sid: u8, outcome: Result<Vec<u8>, UdsError>) -> bool {
    exists|attempts: Seq<Result<Vec<u8>, UdsError>>| #[trigger] attempts_settle(sid, attempts, outcome)
}

/// An ECU that is busy at first and answers then: the answer of the last
/// attempt is the outcome, and no busy answer before it reaches the caller.
pub proof fn lemma_answer_after_busy(
    sid: u8,
    attempts: Seq<Result<Vec<u8>, UdsError>>,
    outcome: Result<Vec<u8>, UdsError>,
)
    requires
        attempts_settle(sid, attempts, outcome),
        !is_busy(attempts.last()),
    ensures
        outcome == attempts.last(),
        !is_busy(outcome),
        attempts.len() - 1 <= MAX_BUSY_RETRIES,
        forall|i: int| 0 <= i < attempts.len() - 1 ==> is_busy(#[trigger] attempts[i]),
{
}

/// An ECU that stays busy: the caller learns of it only after the first
/// attempt and six retries, all of which found it busy.
pub proof fn lemma_busy_after_the_cap(
    sid: u8,
    attempts: Seq<Result<Vec<u8>, UdsError>>,
    outcome: Result<Vec<u8>, UdsError>,
)
    requires
        attempts_settle(sid, attempts, outcome),
        is_busy(outcome),
    ensures
        attempts.len() == MAX_BUSY_RETRIES + 1,
        forall|i: int| 0 <= i < attempts.len() ==> is_busy(#[trigger] attempts[i]),
        failure_text(outcome->Err_0) == "Max busy retries exceeded"@,
{
    assert forall|i: int| 0 <= i < attempts.len() implies is_busy(#[trigger] attempts[i]) by {
        if i == attempts.len() - 1 {
            assert(attempts[i] == attempts.last());
        }
    }
}

/// Sends `request` to the ECU at `tx_id`. Where the emulator stands in for
/// that ECU, its reply is the response and the channel is not touched.
/// Else the request goes out on the channel; while the ECU answers that it
/// is busy, it is sent again after a pause, six times at most.
pub fn uds_request<C: Channel, L: LogSink>(
    log: &L,
    channel: &C,
    tx_id: u32,
    request: &[u8],
    wait_pending: bool,
    emulator: Option<&EcuEmulatorManager>,
) -> (outcome: Result<Vec<u8>, UdsError>)
    requires
        1 <= request@.len() <= MAX_PAYLOAD_SIZE,
    ensures
        emulated_reply(emulator, tx_id, request@) matches Some(reply) ==> is_emulated_outcome(
            outcome,
            reply,
        ),
        emulated_reply(emulator, tx_id, request@) is None ==> is_exchange_outcome(
            request@[0],
            outcome,
        ),
        emulated_reply(emulator, tx_id, request@) is None ==> is_retried_outcome(
            request@[0],
            outcome,
        ),
        outcome matches Ok(response) ==> classify(request@[0], response@) is Positive,
{
    match emulator {
        Some(manager) => {
            match manager.try_handle(tx_id, request) {
                Some(reply) => {
                    proof {
                        let i = first_listener(manager.ecus(), tx_id)->Some_0;
                        lemma_reply_shape(manager.ecus()[i], request@);
                    }
                    note(log, LogDirection::Rx, reply.as_slice(), "EMU");
                    return settle_emulated(reply);
                },
                None => {},
            }
        },
        None => {},
    }
    let mut attempt: u32 = 0;
    let ghost mut made: Seq<Result<Vec<u8>, UdsError>> = Seq::empty();
    loop
        invariant
            attempt <= MAX_BUSY_RETRIES,
            1 <= request@.len() <= MAX_PAYLOAD_SIZE,
            emulated_reply(emulator, tx_id, request@) is None,
            made.len() == attempt,
            forall|i: int| 0 <= i < made.len() ==> is_busy(#[trigger] made[i]),
            forall|i: int| 0 <= i < made.len() ==> is_settled(request@[0], #[trigger] made[i]),
        decreases MAX_BUSY_RETRIES - attempt,
    {
        if attempt > 0 {
            let mut text = String::from_str("Busy retry ");
            push_decimal(&mut text, attempt as u64);
            text.append("/");
            push_decimal(&mut text, MAX_BUSY_RETRIES as u64);
            remark(log, LogDirection::Tx, text.as_str());
        }
        let outcome = send_uds_request_once(log, channel, tx_id, request, wait_pending);
        proof {
            made = made.push(outcome);
        }
        if !retry_after(attempt, &outcome) {
            assert(made.last() == outcome);
            assert(attempts_settle(request@[0], made, outcome));
            return outcome;
        }
        channel.pause(BUSY_PAUSE_MS);
        attempt += 1;
    }
}

/// The text of a failed request. That the ECU is busy shows only once the
/// retries are used up, for the emulator is never busy; the text then says
/// that the retries are used up, and no more.
pub open spec fn failure_text(error: UdsError) -> Seq<char> {
    match error {
        UdsError::NegativeResponse { service_id, nrc } => if nrc
            == NegativeResponseCode::BusyRepeatRequest {
            "Max busy retries exceeded"@
        } else {
            "NRC: "@ + nrc.spec_text()
        },
        UdsError::Timeout => "Timeout waiting for response"@,
        UdsError::TransportError(text) => text@,
        other => other.spec_text(),
    }
}

/// Puts a failed request into words.
pub fn describe_failure(error: &UdsError) -> (text: String)
    ensures
        text@ == failure_text(*error),
{
    match error {
        UdsError::NegativeResponse { service_id: _, nrc } => {
            if nrc.is_busy() {
                String::from_str("Max busy retries exceeded")
            } else {
                let mut text = String::from_str("NRC: ");
                text.append(nrc.to_string().as_str());
                text
            }
        },
        UdsError::Timeout => String::from_str("Timeout waiting for response"),
        UdsError::TransportError(text) => String::from_str(text.as_str()),
        other => other.to_string(),
    }
}

/// What a request can fail with: a negative response, a timeout, or a
/// failure of the channel.
pub open spec fn is_request_failure(error: UdsError) -> bool {
    error is NegativeResponse || error is Timeout || error is TransportError
}

/// Whether `outcome` is what the emulator's reply means to the request,
/// with the failure put into words.
pub open spec fn is_emulated_answer(outcome: Result<Vec<u8>, String>, reply: Seq<u8>) -> bool {
    if is_refusal(reply) {
        outcome is Err && outcome->Err_0@ == failure_text(
            UdsError::NegativeResponse { service_id: reply[1], nrc: nrc_of(reply[2]) },
        )
    } else {
        outcome is Ok && outcome->Ok_0@ == reply
    }
}

/// Sends `request` as `uds_request` does and puts a failure into words.
pub fn send_uds_request<C: Channel, L: LogSink>(
    log: &L,
    channel: &C,
    tx_id: u32,
    request: &[u8],
    wait_pending: bool,
    emulator: Option<&EcuEmulatorManager>,
) -> (outcome: Result<Vec<u8>, String>)
    requires
        1 <= request@.len() <= MAX_PAYLOAD_SIZE,
    ensures
        outcome matches Ok(response) ==> classify(request@[0], response@) is Positive,
        outcome matches Err(text) ==> exists|error: UdsError|
            is_request_failure(error) && text@ == #[trigger] failure_text(error),
        emulated_reply(emulator, tx_id, request@) matches Some(reply) ==> is_emulated_answer(
            outcome,
            reply,
        ),
{
    match uds_request(log, channel, tx_id, request, wait_pending, emulator) {
        Ok(response) => Ok(response),
        Err(e) => {
            assert(is_request_failure(e));
            Err(describe_failure(&e))
        },
    }
}

/// The data of a response to a read by identifier: what follows the
/// service and the identifier; nothing where the response is no longer
/// than those.
pub open spec fn did_payload(response: Seq<u8>) -> Seq<u8> {
    if response.len() > 3 {
        response.subrange(3, response.len() as int)
    } else {
        Seq::<u8>::empty()
    }
}

/// Takes the data out of a response to a read by identifier.
pub fn take_did_payload(response: &[u8]) -> (data: Vec<u8>)
    ensures
        data@ == did_payload(response@),
{
    if response.len() > 3 {
        slice_to_vec(slice_subrange(response, 3, response.len()))
    } else {
        Vec::new()
    }
}

/// The request that reads the data under `did_id`.
pub open spec fn read_request(did_id: u16) -> Seq<u8> {
    seq![0x22u8, high_byte(did_id), low_byte(did_id)]
}

/// What the emulator answers to a read of `did_id`, if it stands in for
/// the ECU at `tx_id`.
pub open spec fn emulated_read(
    emulator: Option<&EcuEmulatorManager>,
    tx_id: u32,
    did_id: u16,
) -> Option<Seq<u8>> {
    emulated_reply(emulator, tx_id, read_request(did_id))
}

/// An outcome with its bytes as a sequence.
pub open spec fn outcome_view(outcome: Result<Vec<u8>, UdsError>) -> Result<Seq<u8>, UdsError> {
    match outcome {
        Ok(bytes) => Ok(bytes@),
        Err(e) => Err(e),
    }
}

/// What a reply of the emulator means to a read: its data, or the failure
/// that it names.
pub open spec fn emulated_data(reply: Seq<u8>) -> Result<Seq<u8>, UdsError> {
    if is_refusal(reply) {
        Err(UdsError::NegativeResponse { service_id: reply[1], nrc: nrc_of(reply[2]) })
    } else {
        Ok(did_payload(reply))
    }
}

/// Reads the data under `did_id` from the ECU at `tx_id` and gives the
/// data alone.
pub fn read_did_data<C: Channel, L: LogSink>(
    log: &L,
    channel: &C,
    tx_id: u32,
    did_id: u16,
    emulator: Option<&EcuEmulatorManager>,
) -> (outcome: Result<Vec<u8>, UdsError>)
    ensures
        emulated_read(emulator, tx_id, did_id) matches Some(reply) ==> outcome_view(outcome)
            == emulated_data(reply),
        outcome matches Err(error) ==> is_request_failure(error),
{
    let request = read_did_request(did_id);
    let name = did_name(did_id);
    let mut label = String::from_str("ReadDID ");
    if name.len() == 0 {
        label.append("0x");
        push_hex_u16(&mut label, did_id);
    } else {
        label.append(name);
        label.append(" (");
        push_hex_u16(&mut label, did_id);
        label.append(")");
    }
    note(log, LogDirection::Tx, request.as_slice(), label.as_str());
    match uds_request(log, channel, tx_id, request.as_slice(), false, emulator) {
        Ok(response) => Ok(take_did_payload(response.as_slice())),
        Err(e) => Err(e),
    }
}

/// Reads the data under `did_id` as `read_did_data` does and puts a
/// failure into words.
pub fn send_read_did<C: Channel, L: LogSink>(
    log: &L,
    channel: &C,
    tx_id: u32,
    did_id: u16,
    emulator: Option<&EcuEmulatorManager>,
) -> (outcome: Result<Vec<u8>, String>)
    ensures
        emulated_read(emulator, tx_id, did_id) matches Some(reply) ==> {
            &&& outcome is Ok <==> !is_refusal(reply)
            &&& outcome matches Ok(data) ==> data@ == did_payload(reply)
            &&& outcome matches Err(text) ==> text@ == failure_text(
                UdsError::NegativeResponse { service_id: reply[1], nrc: nrc_of(reply[2]) },
            )
        },
        outcome matches Err(text) ==> exists|error: UdsError|
            is_request_failure(error) && text@ == #[trigger] failure_text(error),
{
    match read_did_data(log, channel, tx_id, did_id, emulator) {
        Ok(data) => Ok(data),
        Err(e) => Err(describe_failure(&e)),
    }
}

} // verus!
