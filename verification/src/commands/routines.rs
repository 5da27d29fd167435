//! Routines and the central configuration: the sequence that precedes a
//! routine, the routine itself, and the reads of the configuration from
//! the three ECUs that hold it.

use vstd::prelude::*;
use vstd::string::*;
use crate::commands::catalog::routine_needs;
use crate::commands::ccf::{
    block_view, compare_ccf_blocks, compare_row, ccf_rows, parse_ccf_entries, CcfDecodeTable,
    CCF_OPTION_COUNT, IMC_CCF_OPTION_IDS,
};
use crate::commands::info::{error_entry, keep_alive, raise_session};
use crate::commands::request::{
    did_payload, emulated_read, failure_text, is_refusal, is_request_failure, note,
    read_request, remark, send_uds_request, take_did_payload,
};
use crate::commands::{rows, CcfCompareEntry, EcuInfoEntry, InfoRow, RoutineResponse};
use crate::ecu_emulator::EcuEmulatorManager;
use crate::j2534::Channel;
use crate::j2534::types::MAX_PAYLOAD_SIZE;
use crate::text::{decimal, hex_bytes, hex_u16, push_decimal, push_hex_bytes, push_hex_u16};
use crate::uds::client::{classify, LogDirection, LogSink};
use crate::uds::error::UdsError;
use crate::uds::keygen::DC0314_CONSTANTS;
use crate::uds::services::{
    ecu_addr, read_did_request, routine_data, routine_payload, routine_request, seed_request,
    seed_step, session_request, tester_present_request, DiagSession, SeedStep, KEY_LEVEL,
    ROUTINE_RESULTS, ROUTINE_START, SEED_LEVEL,
};

verus! {

fn prefixed(prefix: &str, text: &String) -> (whole: String)
    ensures
        whole@ == prefix@ + text@,
{
    let mut whole = String::from_str(prefix);
    whole.append(text.as_str());
    whole
}

/// Whether `text` opens with `prefix`.
pub open spec fn opens_with(text: Seq<char>, prefix: Seq<char>) -> bool {
    text.len() >= prefix.len() && text.subrange(0, prefix.len() as int) == prefix
}

/// What the prerequisite sequence fails with: the step that failed, then
/// the failure.
pub open spec fn is_prerequisite_failure(text: Seq<char>) -> bool {
    ||| opens_with(text, "TesterPresent failed: "@)
    ||| opens_with(text, "Extended session failed: "@)
    ||| opens_with(text, "Security seed request failed: "@)
    ||| opens_with(text, "Security key send failed: "@)
}

proof fn lemma_opens_with(prefix: Seq<char>, rest: Seq<char>)
    ensures
        opens_with(prefix + rest, prefix),
{
    assert((prefix + rest).subrange(0, prefix.len() as int) =~= prefix);
}

/// The steps of the prerequisite sequence, in their order.
#[derive(Debug, Clone, Copy, PartialEq, Eq, Structural)]
pub enum PrerequisiteStep {
    TesterPresent,
    Session,
    Seed,
    Key,
}

impl PrerequisiteStep {
    /// What opens the failure text of this step.
    pub open spec fn spec_prefix(self) -> Seq<char> {
        match self {
            PrerequisiteStep::TesterPresent => "TesterPresent failed: "@,
            PrerequisiteStep::Session => "Extended session failed: "@,
            PrerequisiteStep::Seed => "Security seed request failed: "@,
            PrerequisiteStep::Key => "Security key send failed: "@,
        }
    }

    /// What opens the failure text of this step.
    pub fn prefix(self) -> (text: &'static str)
        ensures
            text@ == self.spec_prefix(),
    {
        match self {
            PrerequisiteStep::TesterPresent => "TesterPresent failed: ",
            PrerequisiteStep::Session => "Extended session failed: ",
            PrerequisiteStep::Seed => "Security seed request failed: ",
            PrerequisiteStep::Key => "Security key send failed: ",
        }
    }
}

/// The text of a sequence that failed at `step`: the step's opening, then
/// the failure of its request in words.
pub open spec fn is_step_failure(text: Seq<char>, step: PrerequisiteStep) -> bool {
    exists|error: UdsError|
        is_request_failure(error) && text == step.spec_prefix() + #[trigger] failure_text(error)
}

/// What the request of a step means to the sequence: its response lets the
/// sequence go on, its failure ends the sequence with the text that names
/// the step.
pub fn step_outcome(step: PrerequisiteStep, outcome: Result<Vec<u8>, String>) -> (checked: Result<
    Vec<u8>,
    String,
>)
    ensures
        outcome matches Ok(response) ==> checked == Ok::<Vec<u8>, String>(response),
        outcome matches Err(failure) ==> checked is Err && checked->Err_0@ == step.spec_prefix()
            + failure@,
{
    match outcome {
        Ok(response) => Ok(response),
        Err(failure) => Err(prefixed(step.prefix(), &failure)),
    }
}

proof fn lemma_step_failure(step: PrerequisiteStep, failure: Seq<char>)
    requires
        exists|error: UdsError|
            is_request_failure(error) && failure == #[trigger] failure_text(error),
    ensures
        is_step_failure(step.spec_prefix() + failure, step),
        is_prerequisite_failure(step.spec_prefix() + failure),
{
    let error = choose|error: UdsError|
        is_request_failure(error) && failure == #[trigger] failure_text(error);
    assert(step.spec_prefix() + failure == step.spec_prefix() + failure_text(error));
    lemma_opens_with(step.spec_prefix(), failure);
}

/// The sequence that precedes a routine of the infotainment module:
/// tester-present, the switch to the extended session and, where
/// `needs_security` is set, the seed request and the key for it. A seed of
/// zeros, or a seed response without three seed bytes, needs no key. The
/// first request that fails ends the sequence, and the failure names it.
pub fn sdd_prerequisite_flow<C: Channel, L: LogSink>(
    log: &L,
    channel: &C,
    needs_security: bool,
    emulator: Option<&EcuEmulatorManager>,
) -> (outcome: Result<(), String>)
    ensures
        outcome matches Err(text) ==> {
            &&& is_prerequisite_failure(text@)
            &&& {
                ||| is_step_failure(text@, PrerequisiteStep::TesterPresent)
                ||| is_step_failure(text@, PrerequisiteStep::Session)
                ||| needs_security && is_step_failure(text@, PrerequisiteStep::Seed)
                ||| needs_security && is_step_failure(text@, PrerequisiteStep::Key)
            }
        },
{
    let tx = ecu_addr::IMC_TX;
    let request = tester_present_request(false);
    note(log, LogDirection::Tx, request.as_slice(), "TesterPresent");
    let answer = send_uds_request(log, channel, tx, request.as_slice(), false, emulator);
    proof {
        if answer is Err {
            lemma_step_failure(PrerequisiteStep::TesterPresent, answer->Err_0@);
        }
    }
    match step_outcome(PrerequisiteStep::TesterPresent, answer) {
        Ok(_) => {},
        Err(text) => {
            return Err(text);
        },
    }
    let request = session_request(DiagSession::Extended);
    note(log, LogDirection::Tx, request.as_slice(), "DiagnosticSessionControl Extended");
    let answer = send_uds_request(log, channel, tx, request.as_slice(), false, emulator);
    proof {
        if answer is Err {
            lemma_step_failure(PrerequisiteStep::Session, answer->Err_0@);
        }
    }
    match step_outcome(PrerequisiteStep::Session, answer) {
        Ok(_) => {},
        Err(text) => {
            return Err(text);
        },
    }
    if needs_security {
        let request = seed_request(SEED_LEVEL);
        note(log, LogDirection::Tx, request.as_slice(), "SecurityAccess RequestSeed");
        let answer = send_uds_request(log, channel, tx, request.as_slice(), false, emulator);
        proof {
            if answer is Err {
                lemma_step_failure(PrerequisiteStep::Seed, answer->Err_0@);
            }
        }
        let seed_response = match step_outcome(PrerequisiteStep::Seed, answer) {
            Ok(response) => response,
            Err(text) => {
                return Err(text);
            },
        };
        match seed_step(seed_response.as_slice(), KEY_LEVEL, &DC0314_CONSTANTS) {
            SeedStep::SendKey(key_request) => {
                note(log, LogDirection::Tx, key_request.as_slice(), "SecurityAccess SendKey");
                let answer = send_uds_request(
                    log,
                    channel,
                    tx,
                    key_request.as_slice(),
                    false,
                    emulator,
                );
                proof {
                    if answer is Err {
                        lemma_step_failure(PrerequisiteStep::Key, answer->Err_0@);
                    }
                }
                match step_outcome(PrerequisiteStep::Key, answer) {
                    Ok(_) => {},
                    Err(text) => {
                        return Err(text);
                    },
                }
            },
            _ => {},
        }
    }
    Ok(())
}

/// What the response of a routine says: that the routine ran, with the
/// bytes behind the routine identifier, or that it failed.
pub open spec fn routine_report(routine_id: u16, response: Seq<u8>) -> Seq<char> {
    if response.len() >= 1 && response[0] == 0x71 {
        "Routine 0x"@ + hex_u16(routine_id) + " OK: "@ + hex_bytes(routine_data(response))
    } else {
        "Routine 0x"@ + hex_u16(routine_id) + " failed"@
    }
}

/// Reads the response of a routine: whether it is the positive response,
/// the bytes behind the routine identifier, and the report in words.
pub fn routine_response(routine_id: u16, response: &[u8]) -> (answer: RoutineResponse)
    ensures
        answer.success == (response@.len() >= 1 && response@[0] == 0x71),
        answer.raw_data@ == routine_data(response@),
        answer.description@ == routine_report(routine_id, response@),
{
    let raw_data = routine_payload(response);
    let success = response.len() >= 1 && response[0] == 0x71;
    let mut description = String::from_str("Routine 0x");
    push_hex_u16(&mut description, routine_id);
    if success {
        description.append(" OK: ");
        push_hex_bytes(&mut description, raw_data.as_slice());
    } else {
        description.append(" failed");
    }
    assert(description@ =~= routine_report(routine_id, response@));
    RoutineResponse { success, description, raw_data }
}

/// Runs a routine of the infotainment module on `data`. The catalog says
/// whether the routine needs the security access and whether its response
/// may be pending; a routine outside the catalog needs neither. The
/// prerequisite sequence comes first.
pub fn run_routine<C: Channel, L: LogSink>(
    log: &L,
    channel: &C,
    emulator: Option<&EcuEmulatorManager>,
    routine_id: u16,
    data: &[u8],
) -> (outcome: Result<RoutineResponse, String>)
    requires
        data@.len() + 4 <= MAX_PAYLOAD_SIZE,
    ensures
        outcome matches Ok(answer) ==> answer.success && exists|response: Seq<u8>|
            #![trigger routine_data(response)]
            classify(0x31, response) is Positive && answer.raw_data@ == routine_data(response)
                && answer.description@ == routine_report(routine_id, response),
        outcome matches Err(text) ==> is_prerequisite_failure(text@) || opens_with(
            text@,
            "Routine 0x"@ + hex_u16(routine_id) + " failed: "@,
        ),
{
    let (needs_security, needs_pending) = routine_needs(routine_id);
    match sdd_prerequisite_flow(log, channel, needs_security, emulator) {
        Ok(()) => {},
        Err(e) => {
            return Err(e);
        },
    }
    let request = routine_request(ROUTINE_START, routine_id, data);
    match send_uds_request(
        log,
        channel,
        ecu_addr::IMC_TX,
        request.as_slice(),
        needs_pending,
        emulator,
    ) {
        Ok(response) => {
            let answer = routine_response(routine_id, response.as_slice());
            assert(routine_data(response@) == answer.raw_data@);
            Ok(answer)
        },
        Err(e) => {
            let mut text = String::from_str("Routine 0x");
            push_hex_u16(&mut text, routine_id);
            text.append(" failed: ");
            proof {
                lemma_opens_with(text@, e@);
            }
            text.append(e.as_str());
            Err(text)
        },
    }
}

/// A note that counts: `prefix`, the decimal numeral of `count`, `suffix`.
fn count_note(prefix: &str, count: usize, suffix: &str) -> (text: String)
    ensures
        text@ == prefix@ + decimal(count as nat) + suffix@,
{
    let mut text = String::from_str(prefix);
    push_decimal(&mut text, count as u64);
    text.append(suffix);
    text
}

/// The block in the emulator's reply to the read of a configuration: the
/// data of the reply, or nothing where the reply is a refusal or holds no
/// data.
pub open spec fn emulated_block(reply: Seq<u8>) -> Option<Seq<u8>> {
    if is_refusal(reply) || reply.len() <= 3 {
        None
    } else {
        Some(did_payload(reply))
    }
}

/// Reads the configuration block of one ECU by the identifier that holds
/// it: the data of the response, or nothing where the read failed or the
/// response held no data.
pub fn read_ccf_block_did<C: Channel, L: LogSink>(
    log: &L,
    channel: &C,
    tx_id: u32,
    ecu_name: &str,
    did_id: u16,
    emulator: Option<&EcuEmulatorManager>,
) -> (block: Option<Vec<u8>>)
    ensures
        block matches Some(bytes) ==> bytes@.len() > 0,
        emulated_read(emulator, tx_id, did_id) matches Some(reply) ==> block_view(block)
            == emulated_block(reply),
{
    let request = read_did_request(did_id);
    assert(request@ == read_request(did_id));
    let mut label = String::from_str("ReadDID 0x");
    push_hex_u16(&mut label, did_id);
    label.append(" (");
    label.append(ecu_name);
    label.append(" CCF block)");
    note(log, LogDirection::Tx, request.as_slice(), label.as_str());
    match send_uds_request(log, channel, tx_id, request.as_slice(), true, emulator) {
        Ok(response) => {
            if response.len() > 3 {
                let data = take_did_payload(response.as_slice());
                let mut text = String::from_str(ecu_name);
                text.append(count_note(" CCF block: ", data.len(), " bytes").as_str());
                remark(log, LogDirection::Rx, text.as_str());
                Some(data)
            } else {
                let mut text = String::from_str(ecu_name);
                text.append(" CCF block: empty response");
                remark(log, LogDirection::Rx, text.as_str());
                None
            }
        },
        Err(e) => {
            let mut text = String::from_str(ecu_name);
            text.append(" CCF block failed: ");
            text.append(e.as_str());
            remark(log, LogDirection::Rx, text.as_str());
            None
        },
    }
}

/// The block that the answer to a configuration routine holds: the bytes
/// behind the routine identifier where the routine answered with some, else
/// nothing.
pub open spec fn routine_block_in(outcome: Result<Vec<u8>, String>) -> Option<Seq<u8>> {
    match outcome {
        Ok(response) => if response@.len() > 4 {
            Some(routine_data(response@))
        } else {
            None
        },
        Err(_) => None,
    }
}

/// Takes the block out of the answer to a configuration routine.
pub fn routine_block_of(outcome: &Result<Vec<u8>, String>) -> (block: Option<Vec<u8>>)
    ensures
        block_view(block) == routine_block_in(*outcome),
        block matches Some(bytes) ==> bytes@.len() > 0,
{
    match outcome {
        Ok(response) => {
            if response.len() > 4 {
                Some(routine_payload(response.as_slice()))
            } else {
                None
            }
        },
        Err(_) => None,
    }
}

fn routine_block<C: Channel, L: LogSink>(
    log: &L,
    channel: &C,
    request: &Vec<u8>,
    label: &str,
    emulator: Option<&EcuEmulatorManager>,
) -> (block: Option<Vec<u8>>)
    requires
        1 <= request@.len() <= MAX_PAYLOAD_SIZE,
    ensures
        block matches Some(bytes) ==> bytes@.len() > 0,
{
    note(log, LogDirection::Tx, request.as_slice(), label);
    let outcome = send_uds_request(
        log,
        channel,
        ecu_addr::IMC_TX,
        request.as_slice(),
        true,
        emulator,
    );
    let block = routine_block_of(&outcome);
    match (&block, &outcome) {
        (Some(data), _) => {
            remark(log, LogDirection::Rx, count_note("IMC CCF: ", data.len(), " bytes").as_str());
        },
        (None, Err(e)) => {
            let mut text = String::from_str(label);
            text.append(" failed: ");
            text.append(e.as_str());
            remark(log, LogDirection::Rx, text.as_str());
        },
        (None, Ok(_)) => {},
    }
    block
}

/// Reads the configuration that the infotainment module stores. The
/// routine that reports it is tried without an argument, then with the
/// source as argument; then the results of the routine that retrieves it
/// are asked for; last the identifier that holds the block is read. The
/// first of these that gives data ends the search.
pub fn read_ccf_report_imc<C: Channel, L: LogSink>(
    log: &L,
    channel: &C,
    emulator: Option<&EcuEmulatorManager>,
) -> (block: Option<Vec<u8>>)
    ensures
        block matches Some(bytes) ==> bytes@.len() > 0,
{
    keep_alive(log, channel, ecu_addr::IMC_TX, emulator);
    let none: [u8; 0] = [];
    let source: [u8; 1] = [0x01];
    let plain = routine_request(ROUTINE_START, 0x0E01, none.as_slice());
    match routine_block(log, channel, &plain, "RoutineControl Report CCF (0x0E01)", emulator) {
        Some(data) => {
            return Some(data);
        },
        None => {},
    }
    let with_source = routine_request(ROUTINE_START, 0x0E01, source.as_slice());
    match routine_block(
        log,
        channel,
        &with_source,
        "RoutineControl Report CCF (0x0E01 src=01)",
        emulator,
    ) {
        Some(data) => {
            return Some(data);
        },
        None => {},
    }
    let results = routine_request(ROUTINE_RESULTS, 0x0E00, none.as_slice());
    match routine_block(
        log,
        channel,
        &results,
        "RoutineControl Request Results CCF (0x0E00)",
        emulator,
    ) {
        Some(data) => {
            return Some(data);
        },
        None => {},
    }
    read_ccf_block_did(log, channel, ecu_addr::IMC_TX, "IMC", 0xEE00, emulator)
}

/// The comparison of the central configuration, with the blocks that it
/// was made from.
#[derive(Debug)]
pub struct CcfComparison {
    pub entries: Vec<CcfCompareEntry>,
    pub gwm_block: Option<Vec<u8>>,
    pub bcm_block: Option<Vec<u8>>,
    pub imc_block: Option<Vec<u8>>,
}

impl CcfComparison {
    /// The rows are the comparison of the three blocks under `table`: one
    /// for each known option, in the order of the list.
    pub open spec fn compares(&self, table: CcfDecodeTable) -> bool {
        &&& self.entries@.len() == CCF_OPTION_COUNT
        &&& forall|i: int|
            0 <= i < CCF_OPTION_COUNT ==> (#[trigger] self.entries@[i]).row() == compare_row(
                table,
                IMC_CCF_OPTION_IDS@[i],
                block_view(self.gwm_block),
                block_view(self.bcm_block),
                block_view(self.imc_block),
            )
    }
}

fn wake_and_raise<C: Channel, L: LogSink>(
    log: &L,
    channel: &C,
    tx_id: u32,
    emulator: Option<&EcuEmulatorManager>,
) {
    keep_alive(log, channel, tx_id, emulator);
    let _ = raise_session(log, channel, tx_id, emulator);
}

/// Reads the configuration block of the gateway, of the body control
/// module and of the infotainment module, and compares them option by
/// option. A block that cannot be read is left out of the comparison. Only
/// a failure of the prerequisite sequence ends the comparison early.
pub fn compare_ccf<C: Channel, L: LogSink>(
    log: &L,
    channel: &C,
    emulator: Option<&EcuEmulatorManager>,
    table: &CcfDecodeTable,
) -> (outcome: Result<CcfComparison, String>)
    ensures
        outcome matches Ok(comparison) ==> {
            &&& comparison.compares(*table)
            &&& emulated_read(emulator, ecu_addr::GWM_TX, 0xEE00) matches Some(reply)
                ==> block_view(comparison.gwm_block) == emulated_block(reply)
            &&& emulated_read(emulator, ecu_addr::BCM_TX, 0xDE00) matches Some(reply)
                ==> block_view(comparison.bcm_block) == emulated_block(reply)
        },
        outcome matches Err(text) ==> is_prerequisite_failure(text@),
{
    match sdd_prerequisite_flow(log, channel, false, emulator) {
        Ok(()) => {},
        Err(e) => {
            return Err(e);
        },
    }
    wake_and_raise(log, channel, ecu_addr::GWM_TX, emulator);
    let gwm_block = read_ccf_block_did(log, channel, ecu_addr::GWM_TX, "GWM", 0xEE00, emulator);
    wake_and_raise(log, channel, ecu_addr::BCM_TX, emulator);
    let bcm_block = read_ccf_block_did(log, channel, ecu_addr::BCM_TX, "BCM", 0xDE00, emulator);
    wake_and_raise(log, channel, ecu_addr::IMC_TX, emulator);
    let imc_block = read_ccf_report_imc(log, channel, emulator);
    let entries = compare_ccf_blocks(table, &gwm_block, &bcm_block, &imc_block);
    Ok(CcfComparison { entries, gwm_block, bcm_block, imc_block })
}

/// The report on the configuration of the infotainment module.
#[derive(Debug)]
pub struct CcfReport {
    pub entries: Vec<EcuInfoEntry>,
    /// The configuration bytes that the report was made from; none where
    /// the configuration could not be read.
    pub data: Option<Vec<u8>>,
    /// The bytes came from the routine that lists the stored
    /// configuration.
    pub listed: bool,
}

/// The one row of a configuration that could not be read.
pub open spec fn ccf_unavailable_row(failure: Seq<char>) -> InfoRow {
    InfoRow {
        label: "CCF Status"@,
        did_hex: "CCF"@,
        value: None,
        error: Some("CCF not available: "@ + failure),
        category: "config"@,
    }
}

impl CcfReport {
    /// The rows report on the bytes; without bytes there is the one row
    /// that says why.
    pub open spec fn well_formed(&self) -> bool {
        match self.data {
            Some(bytes) => rows(self.entries@) == ccf_rows(bytes@),
            None => !self.listed && exists|failure: Seq<char>|
                rows(self.entries@) == seq![#[trigger] ccf_unavailable_row(failure)],
        }
    }
}

/// The report on the configuration bytes `data`.
fn report(data: Vec<u8>, listed: bool) -> (report: CcfReport)
    ensures
        report.well_formed(),
        block_view(report.data) == Some(data@),
        rows(report.entries@) == ccf_rows(data@),
        report.listed == listed,
{
    CcfReport { entries: parse_ccf_entries(data.as_slice()), data: Some(data), listed }
}

/// Reads the configuration of the infotainment module and reports on it.
/// On a vehicle the routine that retrieves the configuration from the
/// gateway runs first, and its data, or else its results, make the report.
/// On the bench, and where that routine gave nothing, the routine that
/// lists the stored configuration makes it; so on the bench any data is
/// listed data. Only a failure of the prerequisite sequence ends the read
/// with an error.
pub fn read_ccf<C: Channel, L: LogSink>(
    log: &L,
    channel: &C,
    emulator: Option<&EcuEmulatorManager>,
) -> (outcome: Result<CcfReport, String>)
    ensures
        outcome matches Ok(report) ==> report.well_formed(),
        outcome matches Ok(report) ==> emulator is Some && report.data is Some ==> report.listed,
        outcome matches Err(text) ==> is_prerequisite_failure(text@),
{
    let tx = ecu_addr::IMC_TX;
    let none: [u8; 0] = [];
    match sdd_prerequisite_flow(log, channel, false, emulator) {
        Ok(()) => {},
        Err(e) => {
            return Err(e);
        },
    }
    if emulator.is_none() {
        let retrieve = routine_request(ROUTINE_START, 0x0E00, none.as_slice());
        note(log, LogDirection::Tx, retrieve.as_slice(), "RoutineControl Retrieve CCF (0x0E00)");
        match send_uds_request(log, channel, tx, retrieve.as_slice(), true, emulator) {
            Ok(response) => {
                let data = routine_payload(response.as_slice());
                remark(
                    log,
                    LogDirection::Rx,
                    count_note("Retrieve CCF OK: ", data.len(), " bytes").as_str(),
                );
                if data.len() > 0 {
                    return Ok(report(data, false));
                }
                keep_alive(log, channel, tx, emulator);
                let results = routine_request(ROUTINE_RESULTS, 0x0E00, none.as_slice());
                note(
                    log,
                    LogDirection::Tx,
                    results.as_slice(),
                    "RoutineControl Request Results CCF (0x0E00)",
                );
                match send_uds_request(log, channel, tx, results.as_slice(), true, emulator) {
                    Ok(response) => {
                        let data = routine_payload(response.as_slice());
                        if data.len() > 0 {
                            remark(
                                log,
                                LogDirection::Rx,
                                count_note("CCF Results: ", data.len(), " bytes").as_str(),
                            );
                            return Ok(report(data, false));
                        }
                    },
                    Err(_) => {},
                }
            },
            Err(e) => {
                let mut text = String::from_str("Retrieve CCF failed: ");
                text.append(e.as_str());
                text.append(" — trying List");
                remark(log, LogDirection::Rx, text.as_str());
            },
        }
    } else {
        remark(log, LogDirection::Tx, "Bench mode: skipping Retrieve CCF (no GWM on bus)");
    }
    keep_alive(log, channel, tx, emulator);
    let list = routine_request(ROUTINE_START, 0x0E02, none.as_slice());
    note(log, LogDirection::Tx, list.as_slice(), "RoutineControl List CCF (0x0E02)");
    match send_uds_request(log, channel, tx, list.as_slice(), true, emulator) {
        Ok(response) => {
            let data = routine_payload(response.as_slice());
            remark(log, LogDirection::Rx, count_note("List CCF: ", data.len(), " bytes").as_str());
            Ok(report(data, true))
        },
        Err(e) => {
            let mut text = String::from_str("List CCF failed: ");
            text.append(e.as_str());
            remark(log, LogDirection::Rx, text.as_str());
            let mut reason = String::from_str("CCF not available: ");
            reason.append(e.as_str());
            let entry = error_entry("CCF Status", "CCF", reason.as_str(), "config");
            let mut entries: Vec<EcuInfoEntry> = Vec::new();
            entries.push(entry);
            assert(rows(entries@) =~= seq![ccf_unavailable_row(e@)]);
            Ok(CcfReport { entries, data: None, listed: false })
        },
    }
}

} // verus!
