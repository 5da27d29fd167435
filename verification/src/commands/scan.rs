//! The scans: every identifier of an ECU's list is read in the default
//! session, and what failed there is read again in the extended session.

use vstd::prelude::*;
use vstd::string::*;
use vstd::slice::*;
use crate::commands::info::{keep_alive, raise_session};
use crate::commands::request::{
    emulated_read, emulated_reply, failure_text, is_emulated_answer, is_refusal, note,
    read_request, remark, send_uds_request,
};
use crate::commands::ccf::block_view;
use crate::uds::error::{nrc_of, UdsError};
use crate::ecu_emulator::EcuEmulatorManager;
use crate::j2534::Channel;
use crate::commands::text_view;
use crate::text::{decimal, hex_bytes, hex_digit, hex_string, push_decimal, trim_text, trimmed};
use crate::uds::client::{LogDirection, LogSink};
use crate::uds::services::{ecu_addr, read_did_request, routine_request, session_request, DiagSession, ROUTINE_START};

verus! {

/// The identifiers that the scan of the body control module reads.
pub const BCM_SCAN_DIDS: [u16; 67] = [
    0xF190, 0xF188, 0xF18C, 0xF113, 0xF120, 0xF1A5, 0xF180, 0xF181, 0xF187, 0xF189,
    0xF191, 0xF1F1, 0x0528, 0x2A00, 0x2A01, 0x2A02, 0x2A03, 0x2A04, 0x3008, 0x3009,
    0x300A, 0x300B, 0x401B, 0x401C, 0x401D, 0x401E, 0x4020, 0x4021, 0x4025, 0x4026,
    0x4027, 0x4028, 0x4029, 0x402A, 0x402C, 0x402E, 0x4047, 0x4058, 0x4062, 0x4090,
    0x40AB, 0x40DE, 0x41C3, 0x41DD, 0x5B17, 0xA112, 0xC00B, 0xC124, 0xC18C, 0xC190,
    0xC25F, 0xD00E, 0xD134, 0xDD01, 0xDD06, 0xDE00, 0xDE01, 0xDE02, 0xDE03, 0xDE04,
    0xDE06, 0xE103, 0xEE03, 0xEEB0, 0xEEB1, 0xEEB3, 0xEEBB,
];

/// The identifiers that the scan of the gateway reads.
pub const GWM_SCAN_DIDS: [u16; 27] = [
    0xF190, 0xF188, 0xF18C, 0xF113, 0x401B, 0x401C, 0x401E, 0x4020, 0x4021, 0x4025,
    0x4026, 0x4027, 0x4028, 0x4029, 0x402A, 0x402C, 0x402E, 0x4035, 0x4047, 0x4058,
    0x4090, 0x0536, 0x41D0, 0x41E4, 0x41E5, 0x41E6, 0xD100,
];

/// The identifiers that the scan of the instrument cluster reads.
pub const IPC_SCAN_DIDS: [u16; 11] = [
    0xF190, 0xF188, 0xF111, 0xF18C, 0xF113, 0x61AB, 0x61AC, 0x61BB, 0xDD00, 0xC124,
    0xD100,
];

/// The vehicle that the lists were taken from.
pub open spec fn scanned_vehicle() -> Seq<char> {
    "X260 MY16 Jaguar XF"@
}

/// The session in which an identifier was read.
#[derive(Debug, Clone, Copy, PartialEq, Eq, Structural)]
pub enum ScanSession {
    Default,
    Extended,
}

impl ScanSession {
    /// The name of this session in a dump.
    pub open spec fn spec_name(self) -> Seq<char> {
        match self {
            ScanSession::Default => "default"@,
            ScanSession::Extended => "extended"@,
        }
    }

    /// The name of this session in a dump.
    pub fn name(self) -> (n: &'static str)
        ensures
            n@ == self.spec_name(),
    {
        match self {
            ScanSession::Default => "default",
            ScanSession::Extended => "extended",
        }
    }
}

/// What the scan found under one identifier: the whole response with its
/// hexadecimal and its readable view, or why there is none.
#[derive(Debug, Clone)]
pub struct DidScanEntry {
    pub did: u16,
    pub session: ScanSession,
    pub response: Option<Vec<u8>>,
    /// The response as hexadecimal numerals.
    pub raw_hex: Option<String>,
    /// The data of the response as readable characters.
    pub ascii: Option<String>,
    pub error: Option<String>,
}

impl DidScanEntry {
    /// An entry holds a response with its two views, or an error, never
    /// both; what was read in the extended session was read.
    pub open spec fn well_formed(&self) -> bool {
        &&& self.response is Some <==> self.error is None
        &&& self.session == ScanSession::Extended ==> self.response is Some
        &&& match self.response {
            Some(response) => text_view(self.raw_hex) == Some(hex_bytes(response@)) && text_view(
                self.ascii,
            ) == Some(trimmed(shown_data(response@))),
            None => self.raw_hex is None && self.ascii is None,
        }
    }
}

/// What the two configuration routines answered during the scan of the
/// body control module.
#[derive(Debug)]
pub struct CcfProbe {
    pub list: Result<Vec<u8>, String>,
    pub retrieve: Result<Vec<u8>, String>,
}

/// The dump of a scan.
#[derive(Debug)]
pub struct ScanDump {
    pub ecu: String,
    pub vehicle: String,
    pub tx_id: u32,
    pub rx_id: u32,
    pub total_dids: usize,
    pub ok_count: usize,
    pub dids: Vec<DidScanEntry>,
    pub ccf: Option<CcfProbe>,
}

/// The number of entries that hold a response.
pub open spec fn read_count(entries: Seq<DidScanEntry>) -> nat
    decreases entries.len(),
{
    if entries.len() == 0 {
        0
    } else {
        read_count(entries.drop_last()) + if entries.last().response is Some {
            1nat
        } else {
            0nat
        }
    }
}

/// An entry that the scan of `did` at `tx_id` made: it names the
/// identifier and is well formed; and where the emulator stands in for the
/// ECU, it holds the emulator's reply as read in the default session, or
/// the failure that the reply names.
pub open spec fn is_scan_of(
    entry: DidScanEntry,
    did: u16,
    emulator: Option<&EcuEmulatorManager>,
    tx_id: u32,
) -> bool {
    &&& entry.did == did
    &&& entry.well_formed()
    &&& emulated_read(emulator, tx_id, did) matches Some(reply) ==> {
        &&& entry.session == ScanSession::Default
        &&& block_view(entry.response) == if is_refusal(reply) {
            None
        } else {
            Some(reply)
        }
        &&& is_refusal(reply) ==> text_view(entry.error) == Some(
            failure_text(
                UdsError::NegativeResponse { service_id: reply[1], nrc: nrc_of(reply[2]) },
            ),
        )
    }
}

/// The entries are the scans of the identifiers of `dids` at `tx_id`, one
/// for one and in order.
pub open spec fn covers(
    entries: Seq<DidScanEntry>,
    dids: Seq<u16>,
    emulator: Option<&EcuEmulatorManager>,
    tx_id: u32,
) -> bool {
    &&& entries.len() == dids.len()
    &&& forall|i: int|
        0 <= i < dids.len() ==> is_scan_of(#[trigger] entries[i], dids[i], emulator, tx_id)
}

/// Counts the entries that hold a response.
pub fn count_read(entries: &Vec<DidScanEntry>) -> (count: usize)
    ensures
        count == read_count(entries@),
        count <= entries@.len(),
{
    let n = entries.len();
    let mut count: usize = 0;
    let mut i: usize = 0;
    while i < n
        invariant
            n == entries@.len(),
            i <= n,
            count <= i,
            count == read_count(entries@.subrange(0, i as int)),
        decreases n - i,
    {
        assert(entries@.subrange(0, i + 1).drop_last() =~= entries@.subrange(0, i as int));
        if entries[i].response.is_some() {
            count += 1;
        }
        i += 1;
    }
    assert(entries@.subrange(0, n as int) =~= entries@);
    count
}

/// The character that shows a byte in the readable view of a response: the
/// byte itself where it is printable ASCII, else a dot.
pub open spec fn shown_char(byte: u8) -> char {
    if 0x20 <= byte < 0x7F {
        byte as char
    } else {
        '.'
    }
}

/// The data of a response, byte by byte as readable characters.
pub open spec fn shown_data(response: Seq<u8>) -> Seq<char> {
    if response.len() > 3 {
        response.subrange(3, response.len() as int).map_values(|b: u8| shown_char(b))
    } else {
        Seq::<char>::empty()
    }
}

/// The readable view of a response: its data as characters, trimmed.
pub fn printable_ascii(response: &[u8]) -> (text: String)
    ensures
        text@ == trimmed(shown_data(response@)),
{
    let mut shown = String::new();
    let n = response.len();
    let mut i: usize = 3;
    if n <= 3 {
        assert(shown@ =~= shown_data(response@));
    } else {
        while i < n
            invariant
                3 <= i <= n,
                n == response@.len(),
                shown@ == response@.subrange(3, i as int).map_values(|b: u8| shown_char(b)),
            decreases n - i,
        {
            let byte = response[i];
            let c = if 0x20 <= byte && byte < 0x7F {
                byte as char
            } else {
                '.'
            };
            shown.push(c);
            assert(shown@ =~= response@.subrange(3, i + 1).map_values(|b: u8| shown_char(b)));
            i += 1;
        }
    }
    trim_text(shown.as_str())
}

/// The hexadecimal numeral of a number, without leading zeros.
pub open spec fn hex_numeral(n: nat) -> Seq<char>
    decreases n,
{
    if n < 16 {
        seq![hex_digit(n as int)]
    } else {
        hex_numeral(n / 16).push(hex_digit((n % 16) as int))
    }
}

/// A CAN identifier in a dump: `0x`, then its hexadecimal numeral, filled
/// with zeros to three digits.
pub open spec fn can_id_label(id: u32) -> Seq<char> {
    (if id < 0x10 {
        "0x00"@
    } else if id < 0x100 {
        "0x0"@
    } else {
        "0x"@
    }) + hex_numeral(id as nat)
}

fn push_hex_numeral(text: &mut String, n: u32)
    ensures
        final(text)@ == old(text)@ + hex_numeral(n as nat),
    decreases n,
{
    if n >= 16 {
        push_hex_numeral(text, n / 16);
    }
    let digit = (n % 16) as u8;
    let c = if digit < 10 {
        (0x30 + digit) as char
    } else {
        (0x37 + digit) as char
    };
    text.push(c);
    assert(text@ =~= old(text)@ + hex_numeral(n as nat));
}

/// Writes a CAN identifier as a dump shows it.
pub fn can_id_text(id: u32) -> (text: String)
    ensures
        text@ == can_id_label(id),
{
    let mut text = if id < 0x10 {
        String::from_str("0x00")
    } else if id < 0x100 {
        String::from_str("0x0")
    } else {
        String::from_str("0x")
    };
    push_hex_numeral(&mut text, id);
    text
}

/// The text that reports a finished scan.
pub open spec fn scan_summary_text(ecu: Seq<char>, ok: nat, total: nat, path: Seq<char>) -> Seq<
    char,
> {
    ecu + " scan done: "@ + decimal(ok) + "/"@ + decimal(total) + " DIDs OK → "@ + path
}

/// Reports a finished scan: how many identifiers were read, and where the
/// dump went.
pub fn scan_summary(dump: &ScanDump, path: &str) -> (text: String)
    ensures
        text@ == scan_summary_text(dump.ecu@, dump.ok_count as nat, dump.total_dids as nat, path@),
{
    let mut text = String::from_str(dump.ecu.as_str());
    text.append(" scan done: ");
    push_decimal(&mut text, dump.ok_count as u64);
    text.append("/");
    push_decimal(&mut text, dump.total_dids as u64);
    text.append(" DIDs OK → ");
    text.append(path);
    assert(text@ =~= scan_summary_text(
        dump.ecu@,
        dump.ok_count as nat,
        dump.total_dids as nat,
        path@,
    ));
    text
}

fn scan_entry(did: u16, session: ScanSession, outcome: Result<Vec<u8>, String>) -> (entry:
    DidScanEntry)
    ensures
        entry.did == did,
        entry.response == outcome.ok(),
        entry.error == outcome.err(),
        outcome is Ok ==> entry.session == session,
        outcome is Err ==> entry.session == ScanSession::Default,
        outcome is Ok || session == ScanSession::Default ==> entry.well_formed(),
        outcome matches Ok(response) ==> block_view(entry.response) == Some(response@),
        outcome matches Err(text) ==> text_view(entry.error) == Some(text@),
{
    match outcome {
        Ok(response) => {
            let raw_hex = hex_string(response.as_slice());
            let ascii = printable_ascii(response.as_slice());
            DidScanEntry {
                did,
                session,
                response: Some(response),
                raw_hex: Some(raw_hex),
                ascii: Some(ascii),
                error: None,
            }
        },
        Err(text) => DidScanEntry {
            did,
            session: ScanSession::Default,
            response: None,
            raw_hex: None,
            ascii: None,
            error: Some(text),
        },
    }
}

/// Reads every identifier of `dids` from the ECU at `tx_id`. The first
/// pass runs in the default session. Where reads failed, the extended
/// session is asked for and each of them is tried once more; a read that
/// succeeds then replaces the failure. The session is kept alive after
/// every read. There is one entry for each identifier, in the order of the
/// list.
pub fn scan_dids<C: Channel, L: LogSink>(
    log: &L,
    channel: &C,
    tx_id: u32,
    dids: &[u16],
    emulator: Option<&EcuEmulatorManager>,
) -> (entries: Vec<DidScanEntry>)
    ensures
        covers(entries@, dids@, emulator, tx_id),
{
    keep_alive(log, channel, tx_id, emulator);
    let n = dids.len();
    let mut entries: Vec<DidScanEntry> = Vec::new();
    let mut failed: usize = 0;
    remark(log, LogDirection::Tx, "Pass 1: Default session");
    let mut i: usize = 0;
    while i < n
        invariant
            n == dids@.len(),
            i <= n,
            covers(entries@, dids@.subrange(0, i as int), emulator, tx_id),
        decreases n - i,
    {
        let request = read_did_request(dids[i]);
        assert(request@ == read_request(dids@[i as int]));
        let outcome = send_uds_request(log, channel, tx_id, request.as_slice(), false, emulator);
        if outcome.is_err() && failed < usize::MAX {
            failed += 1;
        }
        let ghost before = entries@;
        entries.push(scan_entry(dids[i], ScanSession::Default, outcome));
        assert forall|k: int| 0 <= k < i + 1 implies is_scan_of(
            #[trigger] entries@[k],
            dids@.subrange(0, i + 1)[k],
            emulator,
            tx_id,
        ) by {
            if k < i {
                assert(entries@[k] == before[k]);
                assert(dids@.subrange(0, i as int)[k] == dids@[k]);
            }
        }
        keep_alive(log, channel, tx_id, emulator);
        i += 1;
    }
    assert(dids@.subrange(0, n as int) =~= dids@);
    if failed > 0 {
        let request = session_request(DiagSession::Extended);
        note(log, LogDirection::Tx, request.as_slice(), "Pass 2: Extended session");
        let _ = raise_session(log, channel, tx_id, emulator);
        let mut k: usize = 0;
        while k < n
            invariant
                n == dids@.len(),
                k <= n,
                covers(entries@, dids@, emulator, tx_id),
            decreases n - k,
        {
            if entries[k].response.is_none() {
                let request = read_did_request(dids[k]);
                assert(request@ == read_request(dids@[k as int]));
                let outcome = send_uds_request(
                    log,
                    channel,
                    tx_id,
                    request.as_slice(),
                    false,
                    emulator,
                );
                if outcome.is_ok() {
                    let ghost before = entries@;
                    entries.set(k, scan_entry(dids[k], ScanSession::Extended, outcome));
                    assert forall|j: int| 0 <= j < n implies is_scan_of(
                        #[trigger] entries@[j],
                        dids@[j],
                        emulator,
                        tx_id,
                    ) by {
                        if j != k {
                            assert(entries@[j] == before[j]);
                        } else {
                            assert(is_scan_of(before[j], dids@[j], emulator, tx_id));
                        }
                    }
                }
                keep_alive(log, channel, tx_id, emulator);
            }
            k += 1;
        }
    }
    entries
}

/// Scans the ECU at `tx_id` and makes the dump of what was found.
pub fn scan_ecu_dids<C: Channel, L: LogSink>(
    log: &L,
    channel: &C,
    tx_id: u32,
    ecu_name: &str,
    rx_id: u32,
    all_dids: &[u16],
    emulator: Option<&EcuEmulatorManager>,
) -> (dump: ScanDump)
    ensures
        dump.ecu@ == ecu_name@,
        dump.vehicle@ == scanned_vehicle(),
        dump.tx_id == tx_id,
        dump.rx_id == rx_id,
        dump.total_dids == all_dids@.len(),
        dump.ok_count == read_count(dump.dids@),
        covers(dump.dids@, all_dids@, emulator, tx_id),
        dump.ccf is None,
{
    let dids = scan_dids(log, channel, tx_id, all_dids, emulator);
    let ok_count = count_read(&dids);
    ScanDump {
        ecu: String::from_str(ecu_name),
        vehicle: String::from_str("X260 MY16 Jaguar XF"),
        tx_id,
        rx_id,
        total_dids: all_dids.len(),
        ok_count,
        dids,
        ccf: None,
    }
}

/// Scans the body control module and asks it for its configuration by the
/// two routines that list and report it.
pub fn scan_bcm_full<C: Channel, L: LogSink>(
    log: &L,
    channel: &C,
    emulator: Option<&EcuEmulatorManager>,
) -> (dump: ScanDump)
    ensures
        dump.ecu@ == "BCM"@,
        dump.vehicle@ == scanned_vehicle(),
        dump.tx_id == ecu_addr::BCM_TX,
        dump.rx_id == ecu_addr::BCM_RX,
        dump.total_dids == BCM_SCAN_DIDS@.len(),
        dump.ok_count == read_count(dump.dids@),
        covers(dump.dids@, BCM_SCAN_DIDS@, emulator, ecu_addr::BCM_TX),
        dump.ccf is Some,
        emulated_reply(emulator, ecu_addr::BCM_TX, seq![0x31u8, 0x01u8, 0x0Eu8, 0x02u8])
            matches Some(reply) ==> is_emulated_answer(dump.ccf->Some_0.list, reply),
        emulated_reply(emulator, ecu_addr::BCM_TX, seq![0x31u8, 0x01u8, 0x0Eu8, 0x01u8])
            matches Some(reply) ==> is_emulated_answer(dump.ccf->Some_0.retrieve, reply),
{
    remark(log, LogDirection::Tx, "=== BCM FULL SCAN START ===");
    let tx = ecu_addr::BCM_TX;
    let mut dump = scan_ecu_dids(
        log,
        channel,
        tx,
        "BCM",
        ecu_addr::BCM_RX,
        BCM_SCAN_DIDS.as_slice(),
        emulator,
    );
    remark(log, LogDirection::Tx, "Trying BCM CCF routines...");
    let _ = raise_session(log, channel, tx, emulator);
    let none: [u8; 0] = [];
    let list_request = routine_request(ROUTINE_START, 0x0E02, none.as_slice());
    assert(list_request@ =~= seq![0x31u8, 0x01u8, 0x0Eu8, 0x02u8]);
    let list = send_uds_request(log, channel, tx, list_request.as_slice(), true, emulator);
    let retrieve_request = routine_request(ROUTINE_START, 0x0E01, none.as_slice());
    assert(retrieve_request@ =~= seq![0x31u8, 0x01u8, 0x0Eu8, 0x01u8]);
    let retrieve = send_uds_request(log, channel, tx, retrieve_request.as_slice(), true, emulator);
    dump.ccf = Some(CcfProbe { list, retrieve });
    dump
}

/// Scans the gateway.
pub fn scan_gwm_full<C: Channel, L: LogSink>(
    log: &L,
    channel: &C,
    emulator: Option<&EcuEmulatorManager>,
) -> (dump: ScanDump)
    ensures
        dump.ecu@ == "GWM"@,
        dump.tx_id == ecu_addr::GWM_TX,
        dump.rx_id == ecu_addr::GWM_RX,
        dump.total_dids == GWM_SCAN_DIDS@.len(),
        dump.ok_count == read_count(dump.dids@),
        covers(dump.dids@, GWM_SCAN_DIDS@, emulator, ecu_addr::GWM_TX),
{
    remark(log, LogDirection::Tx, "=== GWM FULL SCAN START ===");
    scan_ecu_dids(
        log,
        channel,
        ecu_addr::GWM_TX,
        "GWM",
        ecu_addr::GWM_RX,
        GWM_SCAN_DIDS.as_slice(),
        emulator,
    )
}

/// Scans the instrument cluster.
pub fn scan_ipc_full<C: Channel, L: LogSink>(
    log: &L,
    channel: &C,
    emulator: Option<&EcuEmulatorManager>,
) -> (dump: ScanDump)
    ensures
        dump.ecu@ == "IPC"@,
        dump.tx_id == ecu_addr::IPC_TX,
        dump.rx_id == ecu_addr::IPC_RX,
        dump.total_dids == IPC_SCAN_DIDS@.len(),
        dump.ok_count == read_count(dump.dids@),
        covers(dump.dids@, IPC_SCAN_DIDS@, emulator, ecu_addr::IPC_TX),
{
    remark(log, LogDirection::Tx, "=== IPC FULL SCAN START ===");
    scan_ecu_dids(
        log,
        channel,
        ecu_addr::IPC_TX,
        "IPC",
        ecu_addr::IPC_RX,
        IPC_SCAN_DIDS.as_slice(),
        emulator,
    )
}

} // verus!
