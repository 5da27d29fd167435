//! The information rows of each ECU: which identifiers are read, in which
//! order, and what becomes of each answer.

use vstd::prelude::*;
use vstd::string::*;
use crate::commands::format::Formatter;
use crate::commands::request::{
    describe_failure, emulated_data, emulated_read, emulated_reply, extended_session_request,
    failure_text, lemma_emulated_reply, lemma_emulated_session, note, outcome_view,
    read_did_data, read_request, remark, uds_request,
};
use crate::commands::{rows, EcuInfoEntry, InfoRow};
use crate::ecu_emulator::EcuEmulatorManager;
use crate::j2534::Channel;
use crate::text::{hex_u16, push_decimal, push_hex_u16, same_text};
use crate::uds::client::{LogDirection, LogSink};
use crate::uds::error::{NegativeResponseCode, UdsError};
use crate::uds::keygen::DC0314_CONSTANTS;
use crate::uds::services::{
    did, ecu_addr, seed_request, seed_step, session_request, tester_present_request, DiagSession,
    SeedStep, KEY_LEVEL, SEED_LEVEL,
};

verus! {

/// One identifier of an ECU's information: what it is called, how its data
/// is shown, and under which heading.
#[derive(Debug, Clone, Copy)]
pub struct DidRow {
    pub did: u16,
    pub label: &'static str,
    pub formatter: Formatter,
    pub category: &'static str,
}

/// How often the bench waits for the infotainment module to answer.
pub const WAKE_ATTEMPTS: u32 = 15;

/// The pause between two calls to the infotainment module, in
/// milliseconds.
pub const WAKE_PAUSE_MS: u32 = 1000;

/// How often the bench tries to raise the session of the infotainment
/// module.
pub const SESSION_ATTEMPTS: u32 = 5;

/// The pause between two tries to raise the session, in milliseconds.
pub const SESSION_PAUSE_MS: u32 = 2000;

/// The row that a read of the identifier of `row` ends in: the formatted
/// data, or the failure in words.
pub open spec fn did_row(row: DidRow, outcome: Result<Seq<u8>, UdsError>) -> InfoRow {
    InfoRow {
        label: row.label@,
        did_hex: hex_u16(row.did),
        value: match outcome {
            Ok(data) => Some(row.formatter.text(data)),
            Err(_) => None,
        },
        error: match outcome {
            Ok(_) => None,
            Err(e) => Some(failure_text(e)),
        },
        category: row.category@,
    }
}

/// A row that stands for the identifier of `row`: it carries its label,
/// its number and its heading, and either a value or an error.
pub open spec fn is_row_of(entry: InfoRow, row: DidRow) -> bool {
    &&& entry.label == row.label@
    &&& entry.did_hex == hex_u16(row.did)
    &&& entry.category == row.category@
    &&& entry.value is Some <==> entry.error is None
}

/// A row that a read of the identifier of `row` at `tx_id` made: it stands
/// for that identifier, and where the emulator stands in for the ECU it is
/// the row that the emulator's reply gives.
pub open spec fn is_read_of(
    entry: InfoRow,
    row: DidRow,
    emulator: Option<&EcuEmulatorManager>,
    tx_id: u32,
) -> bool {
    &&& is_row_of(entry, row)
    &&& emulated_read(emulator, tx_id, row.did) matches Some(reply) ==> entry == did_row(
        row,
        emulated_data(reply),
    )
}

/// Makes the row for the identifier of `row` from what its read ended in.
pub fn did_entry(row: DidRow, outcome: Result<Vec<u8>, UdsError>) -> (entry: EcuInfoEntry)
    ensures
        entry.row() == did_row(row, outcome_view(outcome)),
        is_row_of(entry.row(), row),
{
    let mut did_hex = String::new();
    push_hex_u16(&mut did_hex, row.did);
    assert(did_hex@ =~= hex_u16(row.did));
    match outcome {
        Ok(data) => EcuInfoEntry {
            label: String::from_str(row.label),
            did_hex,
            value: Some(row.formatter.apply(data.as_slice())),
            error: None,
            category: String::from_str(row.category),
        },
        Err(e) => EcuInfoEntry {
            label: String::from_str(row.label),
            did_hex,
            value: None,
            error: Some(describe_failure(&e)),
            category: String::from_str(row.category),
        },
    }
}

/// A row that reports a failure without a read.
pub fn error_entry(label: &str, did_hex: &str, error: &str, category: &str) -> (entry:
    EcuInfoEntry)
    ensures
        entry.row() == (InfoRow {
            label: label@,
            did_hex: did_hex@,
            value: None,
            error: Some(error@),
            category: category@,
        }),
{
    EcuInfoEntry {
        label: String::from_str(label),
        did_hex: String::from_str(did_hex),
        value: None,
        error: Some(String::from_str(error)),
        category: String::from_str(category),
    }
}

/// Whether a read failed because the service is not offered in the active
/// session.
pub open spec fn wants_session(outcome: Result<Vec<u8>, UdsError>) -> bool {
    outcome is Err && outcome->Err_0 is NegativeResponse && outcome->Err_0->nrc
        == NegativeResponseCode::ServiceNotSupportedInActiveSession
}

/// Tells whether a read failed because the service is not offered in the
/// active session.
pub fn needs_session(outcome: &Result<Vec<u8>, UdsError>) -> (wanted: bool)
    ensures
        wanted == wants_session(*outcome),
{
    match outcome {
        Err(UdsError::NegativeResponse { service_id: _, nrc }) => match nrc {
            NegativeResponseCode::ServiceNotSupportedInActiveSession => true,
            _ => false,
        },
        _ => false,
    }
}

/// Keeps the session of the ECU at `tx_id` alive; what the ECU answers
/// does not matter.
pub(crate) fn keep_alive<C: Channel, L: LogSink>(
    log: &L,
    channel: &C,
    tx_id: u32,
    emulator: Option<&EcuEmulatorManager>,
) {
    let request = tester_present_request(false);
    let _ = uds_request(log, channel, tx_id, request.as_slice(), false, emulator);
}

/// Asks the ECU at `tx_id` for the extended session; tells whether it
/// agreed. An ECU that the emulator stands in for always agrees; for any
/// other the channel decides.
pub(crate) fn raise_session<C: Channel, L: LogSink>(
    log: &L,
    channel: &C,
    tx_id: u32,
    emulator: Option<&EcuEmulatorManager>,
) -> (raised: bool)
    ensures
        emulated_reply(emulator, tx_id, extended_session_request()) is Some ==> raised,
{
    let request = session_request(DiagSession::Extended);
    assert(request@ =~= extended_session_request());
    proof {
        lemma_emulated_session(emulator, tx_id);
    }
    uds_request(log, channel, tx_id, request.as_slice(), false, emulator).is_ok()
}

/// Reads one identifier and makes its row. Where the ECU refuses the read
/// in the active session, the extended session is asked for once and the
/// read is tried again. A read that still fails gives a row with the
/// failure in words. The emulator never refuses a read for its session, so
/// its reply decides the row at once.
pub fn read_did_entry<C: Channel, L: LogSink>(
    log: &L,
    channel: &C,
    tx_id: u32,
    row: DidRow,
    emulator: Option<&EcuEmulatorManager>,
) -> (entry: EcuInfoEntry)
    ensures
        is_read_of(entry.row(), row, emulator, tx_id),
{
    let first = read_did_data(log, channel, tx_id, row.did, emulator);
    proof {
        lemma_emulated_reply(emulator, tx_id, read_request(row.did));
    }
    let outcome = if needs_session(&first) {
        let _ = raise_session(log, channel, tx_id, emulator);
        read_did_data(log, channel, tx_id, row.did, emulator)
    } else {
        first
    };
    let entry = did_entry(row, outcome);
    match &entry.value {
        Some(value) => {
            let mut text = String::from_str(row.label);
            text.append(" = ");
            text.append(value.as_str());
            remark(log, LogDirection::Rx, text.as_str());
        },
        None => {},
    }
    entry
}

/// The rows of `entries` from `start` on are the reads of the identifiers
/// of `plan` at `tx_id`, one for one and in order.
pub open spec fn follows_plan(
    entries: Seq<EcuInfoEntry>,
    start: int,
    plan: Seq<DidRow>,
    emulator: Option<&EcuEmulatorManager>,
    tx_id: u32,
) -> bool {
    &&& entries.len() == start + plan.len()
    &&& forall|i: int|
        0 <= i < plan.len() ==> is_read_of(
            (#[trigger] entries[start + i]).row(),
            plan[i],
            emulator,
            tx_id,
        )
}

/// Reads the identifiers of `plan` in order and adds a row for each. With
/// `alive_first` the session is kept alive before every read, else between
/// every two reads.
pub fn read_plan<C: Channel, L: LogSink>(
    log: &L,
    channel: &C,
    tx_id: u32,
    plan: &Vec<DidRow>,
    alive_first: bool,
    emulator: Option<&EcuEmulatorManager>,
    entries: &mut Vec<EcuInfoEntry>,
)
    ensures
        follows_plan(final(entries)@, old(entries)@.len() as int, plan@, emulator, tx_id),
        final(entries)@.subrange(0, old(entries)@.len() as int) == old(entries)@,
{
    let n = plan.len();
    let ghost start = entries@.len() as int;
    let mut i: usize = 0;
    while i < n
        invariant
            n == plan@.len(),
            i <= n,
            start == old(entries)@.len(),
            entries@.len() == start + i,
            entries@.subrange(0, start) == old(entries)@,
            forall|k: int|
                0 <= k < i ==> is_read_of(
                    (#[trigger] entries@[start + k]).row(),
                    plan@[k],
                    emulator,
                    tx_id,
                ),
        decreases n - i,
    {
        if alive_first || i > 0 {
            keep_alive(log, channel, tx_id, emulator);
        }
        let ghost before = entries@;
        let entry = read_did_entry(log, channel, tx_id, plan[i], emulator);
        entries.push(entry);
        assert(entries@.subrange(0, start) =~= before.subrange(0, start));
        assert forall|k: int| 0 <= k < i + 1 implies is_read_of(
            (#[trigger] entries@[start + k]).row(),
            plan@[k],
            emulator,
            tx_id,
        ) by {
            if k < i {
                assert(entries@[start + k] == before[start + k]);
            }
        }
        i += 1;
    }
}

/// What is read from the body control module.
pub open spec fn bcm_plan() -> Seq<DidRow> {
    seq![
        DidRow { did: 0xF190, label: "VIN", formatter: Formatter::Text, category: "vehicle" },
        DidRow { did: 0xF188, label: "SW Part", formatter: Formatter::Text, category: "software" },
        DidRow { did: 0xF18C, label: "ECU Serial", formatter: Formatter::Text, category: "hardware" },
        DidRow { did: 0xF113, label: "HW Part", formatter: Formatter::Text, category: "hardware" },
    ]
}

/// What is read from the gateway, which also keeps the battery.
pub open spec fn gwm_plan() -> Seq<DidRow> {
    seq![
        DidRow { did: 0xF190, label: "VIN", formatter: Formatter::Text, category: "vehicle" },
        DidRow { did: 0xF188, label: "SW Part", formatter: Formatter::Text, category: "software" },
        DidRow {
            did: 0x402A,
            label: "Battery Voltage",
            formatter: Formatter::GwmVoltage,
            category: "battery",
        },
        DidRow { did: 0x4028, label: "Battery SOC", formatter: Formatter::Soc, category: "battery" },
        DidRow {
            did: 0x4029,
            label: "Battery Temp",
            formatter: Formatter::GwmTemp,
            category: "battery",
        },
    ]
}

/// What is read from the instrument cluster.
pub open spec fn ipc_plan() -> Seq<DidRow> {
    seq![
        DidRow { did: 0xF190, label: "VIN", formatter: Formatter::Text, category: "vehicle" },
        DidRow { did: 0xF188, label: "SW Part", formatter: Formatter::Text, category: "software" },
        DidRow { did: 0x61BB, label: "Odometer", formatter: Formatter::Odometer, category: "vehicle" },
    ]
}

/// What is read from the infotainment module in any session, behind its
/// active session.
pub open spec fn imc_plan() -> Seq<DidRow> {
    seq![
        DidRow { did: 0xF190, label: "VIN", formatter: Formatter::Text, category: "vehicle" },
        DidRow { did: 0xF188, label: "SW Part", formatter: Formatter::Text, category: "software" },
        DidRow { did: 0xF120, label: "V850 Part", formatter: Formatter::Text, category: "software" },
        DidRow { did: 0xF1A5, label: "Polar Part", formatter: Formatter::Text, category: "software" },
        DidRow { did: 0xF18C, label: "ECU Serial", formatter: Formatter::Text, category: "hardware" },
        DidRow { did: 0xF113, label: "HW Part", formatter: Formatter::Text, category: "hardware" },
    ]
}

/// The active session of the infotainment module, read first.
pub open spec fn imc_session_row() -> DidRow {
    DidRow {
        did: 0xD100,
        label: "Diag Session",
        formatter: Formatter::DiagSession,
        category: "status",
    }
}

/// The state of the infotainment module, read last and in the extended
/// session only.
pub open spec fn imc_status_row() -> DidRow {
    DidRow {
        did: 0x0202,
        label: "IMC Status",
        formatter: Formatter::ImcStatus,
        category: "status",
    }
}

fn text_row(did: u16, label: &'static str, category: &'static str) -> (row: DidRow)
    ensures
        row == (DidRow { did, label, formatter: Formatter::Text, category }),
{
    DidRow { did, label, formatter: Formatter::Text, category }
}

fn bcm_rows() -> (plan: Vec<DidRow>)
    ensures
        plan@ == bcm_plan(),
{
    let plan = vec![
        text_row(did::VIN, "VIN", "vehicle"),
        text_row(did::MASTER_RPM_PART, "SW Part", "software"),
        text_row(did::ECU_SERIAL, "ECU Serial", "hardware"),
        text_row(did::ECU_SERIAL2, "HW Part", "hardware"),
    ];
    assert(plan@ =~= bcm_plan());
    plan
}

fn gwm_rows() -> (plan: Vec<DidRow>)
    ensures
        plan@ == gwm_plan(),
{
    let plan = vec![
        text_row(did::VIN, "VIN", "vehicle"),
        text_row(did::MASTER_RPM_PART, "SW Part", "software"),
        DidRow {
            did: did::BATTERY_VOLTAGE,
            label: "Battery Voltage",
            formatter: Formatter::GwmVoltage,
            category: "battery",
        },
        DidRow {
            did: did::BATTERY_SOC,
            label: "Battery SOC",
            formatter: Formatter::Soc,
            category: "battery",
        },
        DidRow {
            did: did::BATTERY_TEMP,
            label: "Battery Temp",
            formatter: Formatter::GwmTemp,
            category: "battery",
        },
    ];
    assert(plan@ =~= gwm_plan());
    plan
}

fn ipc_rows() -> (plan: Vec<DidRow>)
    ensures
        plan@ == ipc_plan(),
{
    let plan = vec![
        text_row(did::VIN, "VIN", "vehicle"),
        text_row(did::MASTER_RPM_PART, "SW Part", "software"),
        DidRow { did: 0x61BB, label: "Odometer", formatter: Formatter::Odometer, category: "vehicle" },
    ];
    assert(plan@ =~= ipc_plan());
    plan
}

fn imc_rows() -> (plan: Vec<DidRow>)
    ensures
        plan@ == imc_plan(),
{
    let plan = vec![
        text_row(did::VIN, "VIN", "vehicle"),
        text_row(did::MASTER_RPM_PART, "SW Part", "software"),
        text_row(did::V850_PART, "V850 Part", "software"),
        text_row(did::POLAR_PART, "Polar Part", "software"),
        text_row(did::ECU_SERIAL, "ECU Serial", "hardware"),
        text_row(did::ECU_SERIAL2, "HW Part", "hardware"),
    ];
    assert(plan@ =~= imc_plan());
    plan
}

/// Reads the information of the body control module: one row for each
/// identifier of its plan.
pub fn read_bcm_info<C: Channel, L: LogSink>(
    log: &L,
    channel: &C,
    emulator: Option<&EcuEmulatorManager>,
) -> (entries: Vec<EcuInfoEntry>)
    ensures
        follows_plan(entries@, 0, bcm_plan(), emulator, ecu_addr::BCM_TX),
{
    let mut entries: Vec<EcuInfoEntry> = Vec::new();
    read_plan(log, channel, ecu_addr::BCM_TX, &bcm_rows(), false, emulator, &mut entries);
    entries
}

/// Reads the information of the gateway: one row for each identifier of
/// its plan.
pub fn read_gwm_info<C: Channel, L: LogSink>(
    log: &L,
    channel: &C,
    emulator: Option<&EcuEmulatorManager>,
) -> (entries: Vec<EcuInfoEntry>)
    ensures
        follows_plan(entries@, 0, gwm_plan(), emulator, ecu_addr::GWM_TX),
{
    let mut entries: Vec<EcuInfoEntry> = Vec::new();
    read_plan(log, channel, ecu_addr::GWM_TX, &gwm_rows(), false, emulator, &mut entries);
    entries
}

/// Reads the information of the instrument cluster: one row for each
/// identifier of its plan.
pub fn read_ipc_info<C: Channel, L: LogSink>(
    log: &L,
    channel: &C,
    emulator: Option<&EcuEmulatorManager>,
) -> (entries: Vec<EcuInfoEntry>)
    ensures
        follows_plan(entries@, 0, ipc_plan(), emulator, ecu_addr::IPC_TX),
{
    let mut entries: Vec<EcuInfoEntry> = Vec::new();
    read_plan(log, channel, ecu_addr::IPC_TX, &ipc_rows(), false, emulator, &mut entries);
    entries
}

/// What follows one attempt of something that is tried several times.
#[derive(Debug, Clone, Copy, PartialEq, Eq, Structural)]
pub enum AttemptStep {
    /// The attempt succeeded: no more are made.
    Succeeded,
    /// The attempt failed and more are left: the next follows a pause.
    PauseAndRetry,
    /// The attempt failed and was the last.
    GivenUp,
}

/// What follows the attempt `attempt` of `attempts` (the first is attempt
/// one): nothing more where it succeeded, a pause and the next attempt
/// where it failed and was not the last, and the end where it was.
pub open spec fn attempt_step(attempt: u32, attempts: u32, succeeded: bool) -> AttemptStep {
    if succeeded {
        AttemptStep::Succeeded
    } else if attempt < attempts {
        AttemptStep::PauseAndRetry
    } else {
        AttemptStep::GivenUp
    }
}

/// Decides what follows an attempt.
pub fn after_attempt(attempt: u32, attempts: u32, succeeded: bool) -> (step: AttemptStep)
    ensures
        step == attempt_step(attempt, attempts, succeeded),
{
    if succeeded {
        AttemptStep::Succeeded
    } else if attempt < attempts {
        AttemptStep::PauseAndRetry
    } else {
        AttemptStep::GivenUp
    }
}

/// Calls the infotainment module until it answers, fifteen times at most
/// with a pause after each call that failed but the last; tells whether it
/// answered. The emulator never stands in for the module, so the channel
/// decides every call.
fn wait_for_imc<C: Channel, L: LogSink>(
    log: &L,
    channel: &C,
    emulator: Option<&EcuEmulatorManager>,
) -> (ready: bool) {
    remark(log, LogDirection::Tx, "Bench mode: waiting for IMC to boot...");
    let request = tester_present_request(false);
    let mut attempt: u32 = 1;
    loop
        invariant
            1 <= attempt <= WAKE_ATTEMPTS,
            request@ == seq![0x3Eu8, 0x00u8],
        decreases WAKE_ATTEMPTS - attempt,
    {
        let mut text = String::from_str("TesterPresent poll ");
        push_decimal(&mut text, attempt as u64);
        text.append("/15");
        note(log, LogDirection::Tx, request.as_slice(), text.as_str());
        let answered = uds_request(
            log,
            channel,
            ecu_addr::IMC_TX,
            request.as_slice(),
            false,
            emulator,
        ).is_ok();
        match after_attempt(attempt, WAKE_ATTEMPTS, answered) {
            AttemptStep::Succeeded => {
                let mut text = String::from_str("IMC responded on attempt ");
                push_decimal(&mut text, attempt as u64);
                remark(log, LogDirection::Rx, text.as_str());
                return true;
            },
            AttemptStep::PauseAndRetry => {
                channel.pause(WAKE_PAUSE_MS);
                attempt += 1;
            },
            AttemptStep::GivenUp => {
                remark(log, LogDirection::Rx, "IMC not responding after 15 attempts");
                return false;
            },
        }
    }
}

/// Tries to raise the session of the infotainment module, five times at
/// most with a pause after each try that failed but the last; tells
/// whether it rose. The channel decides every try.
fn raise_imc_session<C: Channel, L: LogSink>(
    log: &L,
    channel: &C,
    emulator: Option<&EcuEmulatorManager>,
) -> (raised: bool) {
    let mut attempt: u32 = 1;
    loop
        invariant
            1 <= attempt <= SESSION_ATTEMPTS,
        decreases SESSION_ATTEMPTS - attempt,
    {
        let raised = raise_session(log, channel, ecu_addr::IMC_TX, emulator);
        match after_attempt(attempt, SESSION_ATTEMPTS, raised) {
            AttemptStep::Succeeded => {
                return true;
            },
            AttemptStep::PauseAndRetry => {
                channel.pause(SESSION_PAUSE_MS);
                attempt += 1;
            },
            AttemptStep::GivenUp => {
                return false;
            },
        }
    }
}

/// Tries the security access of the infotainment module with the
/// platform's constants; tells whether the module is unlocked. A seed of
/// zeros needs no key.
fn try_unlock_imc<C: Channel, L: LogSink>(
    log: &L,
    channel: &C,
    emulator: Option<&EcuEmulatorManager>,
) -> (unlocked: bool) {
    let request = seed_request(SEED_LEVEL);
    let seed_response = match uds_request(
        log,
        channel,
        ecu_addr::IMC_TX,
        request.as_slice(),
        false,
        emulator,
    ) {
        Ok(response) => response,
        Err(_) => {
            return false;
        },
    };
    match seed_step(seed_response.as_slice(), KEY_LEVEL, &DC0314_CONSTANTS) {
        SeedStep::TooShort => false,
        SeedStep::Unlocked => true,
        SeedStep::SendKey(key_request) => uds_request(
            log,
            channel,
            ecu_addr::IMC_TX,
            key_request.as_slice(),
            false,
            emulator,
        ).is_ok(),
    }
}

/// The one row of an infotainment module that does not answer.
pub open spec fn imc_silent_row() -> InfoRow {
    InfoRow {
        label: "IMC Status"@,
        did_hex: "0202"@,
        value: None,
        error: Some("IMC not responding — check power and CAN connection"@),
        category: "status"@,
    }
}

/// The last row of an infotainment module that stays in the default
/// session.
pub open spec fn imc_session_denied_row() -> InfoRow {
    InfoRow {
        label: "IMC Status"@,
        did_hex: "0202"@,
        value: None,
        error: Some("Extended Session required for 0x0202"@),
        category: "status"@,
    }
}

/// What the read of the infotainment module gives: the one row that says
/// that the module is silent, which happens on the bench only; or its
/// active session, the identifiers of its plan and its state, where the
/// state is the row that was read or the row that says that the session
/// was denied.
pub open spec fn is_imc_info(entries: Seq<EcuInfoEntry>, bench: bool) -> bool {
    ||| (bench && rows(entries) == seq![imc_silent_row()])
    ||| {
        &&& entries.len() == 8
        &&& is_row_of(entries[0].row(), imc_session_row())
        &&& forall|i: int| 0 <= i < 6 ==> is_row_of((#[trigger] entries[1 + i]).row(), imc_plan()[i])
        &&& (is_row_of(entries[7].row(), imc_status_row()) || entries[7].row()
            == imc_session_denied_row())
    }
}

/// Reads the information of the infotainment module. On the bench the
/// module is first called until it answers, then its session is raised and
/// its security access tried; a module that never answers gives one row
/// that says so. Then the active session is read, then the identifiers of
/// the plan with the session kept alive before each, and last the state,
/// for which the extended session is needed.
pub fn read_imc_info<C: Channel, L: LogSink>(
    log: &L,
    channel: &C,
    emulator: Option<&EcuEmulatorManager>,
) -> (entries: Vec<EcuInfoEntry>)
    ensures
        is_imc_info(entries@, emulator is Some),
{
    let tx = ecu_addr::IMC_TX;
    let mut entries: Vec<EcuInfoEntry> = Vec::new();
    let mut raised = false;
    if emulator.is_some() {
        if !wait_for_imc(log, channel, emulator) {
            entries.push(
                error_entry(
                    "IMC Status",
                    "0202",
                    "IMC not responding — check power and CAN connection",
                    "status",
                ),
            );
            assert(rows(entries@) =~= seq![imc_silent_row()]);
            return entries;
        }
        raised = raise_imc_session(log, channel, emulator);
        if raised {
            let _ = try_unlock_imc(log, channel, emulator);
        }
    } else {
        let request = tester_present_request(false);
        note(log, LogDirection::Tx, request.as_slice(), "TesterPresent (IMC)");
        keep_alive(log, channel, tx, emulator);
    }
    let session_row = DidRow {
        did: did::ACTIVE_DIAG_SESSION,
        label: "Diag Session",
        formatter: Formatter::DiagSession,
        category: "status",
    };
    entries.push(read_did_entry(log, channel, tx, session_row, emulator));
    read_plan(log, channel, tx, &imc_rows(), true, emulator, &mut entries);
    assert(entries@.subrange(0, 1)[0] == entries@[0]);
    if !raised {
        let request = session_request(DiagSession::Extended);
        note(log, LogDirection::Tx, request.as_slice(), "ExtendedSession (IMC)");
        raised = raise_session(log, channel, tx, emulator);
    }
    let ghost before = entries@;
    if raised {
        remark(log, LogDirection::Rx, "Extended Session OK");
        keep_alive(log, channel, tx, emulator);
        let status_row = DidRow {
            did: did::IMC_STATUS,
            label: "IMC Status",
            formatter: Formatter::ImcStatus,
            category: "status",
        };
        entries.push(read_did_entry(log, channel, tx, status_row, emulator));
    } else {
        entries.push(
            error_entry("IMC Status", "0202", "Extended Session required for 0x0202", "status"),
        );
    }
    assert forall|i: int| 0 <= i < 6 implies is_row_of(
        (#[trigger] entries@[1 + i]).row(),
        imc_plan()[i],
    ) by {
        assert(entries@[1 + i] == before[1 + i]);
    }
    assert(entries@[0] == before[0]);
    entries
}

/// The text that refuses an ECU that the host does not know.
pub open spec fn unknown_ecu_text(ecu: Seq<char>) -> Seq<char> {
    "Unknown ECU: "@ + ecu
}

/// Reads the information of the ECU that `ecu` names: `imc`, `bcm`, `gwm`
/// or `ipc`. Any other name is refused.
pub fn read_ecu_info<C: Channel, L: LogSink>(
    log: &L,
    channel: &C,
    emulator: Option<&EcuEmulatorManager>,
    ecu: &str,
) -> (outcome: Result<Vec<EcuInfoEntry>, String>)
    ensures
        ecu@ == "imc"@ ==> outcome is Ok && is_imc_info(outcome->Ok_0@, emulator is Some),
        ecu@ == "bcm"@ ==> outcome is Ok && follows_plan(
            outcome->Ok_0@,
            0,
            bcm_plan(),
            emulator,
            ecu_addr::BCM_TX,
        ),
        ecu@ == "gwm"@ ==> outcome is Ok && follows_plan(
            outcome->Ok_0@,
            0,
            gwm_plan(),
            emulator,
            ecu_addr::GWM_TX,
        ),
        ecu@ == "ipc"@ ==> outcome is Ok && follows_plan(
            outcome->Ok_0@,
            0,
            ipc_plan(),
            emulator,
            ecu_addr::IPC_TX,
        ),
        !(ecu@ == "imc"@ || ecu@ == "bcm"@ || ecu@ == "gwm"@ || ecu@ == "ipc"@) ==> outcome is Err
            && outcome->Err_0@ == unknown_ecu_text(ecu@),
{
    proof {
        reveal_strlit("imc");
        reveal_strlit("bcm");
        reveal_strlit("gwm");
        reveal_strlit("ipc");
        assert("imc"@[0] == 'i' && "bcm"@[0] == 'b' && "gwm"@[0] == 'g' && "ipc"@[1] == 'p');
        assert("imc"@[1] == 'm');
    }
    if same_text(ecu, "imc") {
        Ok(read_imc_info(log, channel, emulator))
    } else if same_text(ecu, "bcm") {
        Ok(read_bcm_info(log, channel, emulator))
    } else if same_text(ecu, "gwm") {
        Ok(read_gwm_info(log, channel, emulator))
    } else if same_text(ecu, "ipc") {
        Ok(read_ipc_info(log, channel, emulator))
    } else {
        let mut text = String::from_str("Unknown ECU: ");
        text.append(ecu);
        Err(text)
    }
}

} // verus!
