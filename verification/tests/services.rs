#![allow(unused_imports)]

use std::cell::RefCell;
use std::collections::VecDeque;
use std::rc::Rc;

use uds_host::j2534::types::{PassThruMsg, ISO15765_FRAME_PAD, PROTOCOL_ISO15765};
use uds_host::j2534::Channel;
use uds_host::uds::client::{LogDirection, LogEntry, LogSink};
use uds_host::uds::client::{NoLog, UdsClient};
use uds_host::uds::error::{NegativeResponseCode, UdsError};
use uds_host::uds::keygen;
use uds_host::uds::services::{
    check_did_response, check_seed_response, describe_0404, describe_6038,
    describe_routine_result, diagnostic_session, did, did_data, ecu_addr, ecu_reset, enable_ssh,
    execute_routine_sdd, key_request, read_did, read_did_data, read_did_request,
    read_part_number, read_vin, reset_request, routine, routine_control, routine_request,
    routine_result, routine_start, sdd_prerequisite_flow, security_access,
    security_request_seed, security_send_key, seed_request, seed_step, session_request,
    settled_by_seed, key_outcome,
    tester_present, tester_present_no_response, tester_present_request, DiagSession, ResetType,
    SeedStep, ROUTINE_RESULTS, ROUTINE_START, ROUTINE_STOP,
};

/// A single expected request and the responses that answer it
#[derive(Debug, Clone)]
struct Expectation {
    /// Expected TX CAN ID
    tx_id: u32,
    /// Expected UDS payload (without CAN header)
    expected_request: Vec<u8>,
    /// Response payloads to return (multiple for pending scenarios)
    responses: Vec<Vec<u8>>,
}

/// Scripted channel for testing the UDS client and the flows without hardware.
/// Supports multi-ECU routing by CAN ID (IMC, BCM, GWM etc).
pub struct MockChannel {
    expectations: RefCell<VecDeque<Expectation>>,
    /// Pending responses to deliver on next read() call
    pending_responses: RefCell<VecDeque<(u32, Vec<u8>)>>,
    /// Track sent messages for assertions
    sent_messages: RefCell<Vec<(u32, Vec<u8>)>>,
    /// Registered filters (tx_id, rx_id)
    filters: RefCell<Vec<(u32, u32)>>,
    /// If true, read() returns empty when no pending (simulates timeout)
    timeout_mode: RefCell<bool>,
    /// The pauses that the client asked for, in milliseconds
    pauses: RefCell<Vec<u32>>,
}

#[allow(dead_code)]
impl MockChannel {
    pub fn new() -> Self {
        Self {
            expectations: RefCell::new(VecDeque::new()),
            pending_responses: RefCell::new(VecDeque::new()),
            sent_messages: RefCell::new(Vec::new()),
            filters: RefCell::new(Vec::new()),
            timeout_mode: RefCell::new(false),
            pauses: RefCell::new(Vec::new()),
        }
    }

    /// Expect a request with given payload on tx_id, respond with given payload from rx_id.
    /// The response CAN header is auto-derived from the filter for that tx_id.
    pub fn expect_request(&self, tx_id: u32, request: Vec<u8>, response: Vec<u8>) {
        self.expectations.borrow_mut().push_back(Expectation {
            tx_id,
            expected_request: request,
            responses: vec![response],
        });
    }

    /// Expect a request that returns multiple responses (e.g., pending then OK).
    pub fn expect_request_multi(&self, tx_id: u32, request: Vec<u8>, responses: Vec<Vec<u8>>) {
        self.expectations.borrow_mut().push_back(Expectation {
            tx_id,
            expected_request: request,
            responses,
        });
    }

    /// Set timeout mode: read() will return empty (simulating no ECU response)
    pub fn set_timeout_mode(&self, enabled: bool) {
        *self.timeout_mode.borrow_mut() = enabled;
    }

    /// Get all messages that were sent through this channel
    pub fn sent_messages(&self) -> Vec<(u32, Vec<u8>)> {
        self.sent_messages.borrow().clone()
    }

    /// Get registered filters
    pub fn filters(&self) -> Vec<(u32, u32)> {
        self.filters.borrow().clone()
    }

    /// The pauses that were asked for
    pub fn pauses(&self) -> Vec<u32> {
        self.pauses.borrow().clone()
    }

    /// Verify all expectations were consumed
    pub fn verify(&self) {
        let remaining = self.expectations.borrow().len();
        assert_eq!(
            remaining, 0,
            "MockChannel: {} expectations were not consumed",
            remaining
        );
    }

    /// Find the rx_id for a given tx_id from registered filters
    fn rx_id_for_tx(&self, tx_id: u32) -> u32 {
        for (filter_tx, filter_rx) in self.filters.borrow().iter() {
            if *filter_tx == tx_id {
                return *filter_rx;
            }
        }
        // Default: use common JLR pattern (tx + 8)
        tx_id + 8
    }
}

impl Channel for MockChannel {
    fn send(&self, msg: &PassThruMsg, _timeout_ms: u32) -> Result<(), String> {
        let can_id = msg.can_id();
        let payload = msg.payload().to_vec();

        self.sent_messages
            .borrow_mut()
            .push((can_id, payload.clone()));

        // Match against expectations
        let mut expectations = self.expectations.borrow_mut();
        if let Some(pos) = expectations
            .iter()
            .position(|e| e.tx_id == can_id && e.expected_request == payload)
        {
            let exp = expectations.remove(pos).unwrap();
            let rx_id = self.rx_id_for_tx(can_id);

            // Queue all responses
            for resp in exp.responses {
                self.pending_responses.borrow_mut().push_back((rx_id, resp));
            }
        }
        // If no expectation matches, that's OK:
        // the test might be checking that something was sent without caring about response

        Ok(())
    }

    fn read(&self, _timeout_ms: u32) -> Result<Vec<PassThruMsg>, String> {
        if *self.timeout_mode.borrow() {
            return Ok(vec![]);
        }

        let mut responses = self.pending_responses.borrow_mut();
        let mut msgs = Vec::new();

        while let Some((rx_id, payload)) = responses.pop_front() {
            let msg = PassThruMsg::new_iso15765(rx_id, &payload);
            msgs.push(msg);
        }

        Ok(msgs)
    }

    fn setup_iso15765_filter(&self, tx_id: u32, rx_id: u32) -> Result<u32, String> {
        let mut filters = self.filters.borrow_mut();
        let filter_id = filters.len() as u32;
        filters.push((tx_id, rx_id));
        Ok(filter_id)
    }

    fn pause(&self, ms: u32) {
        self.pauses.borrow_mut().push(ms);
    }
}

/// A sink that keeps every record for the test to read
#[derive(Clone)]
pub struct RecordingSink {
    records: Rc<RefCell<Vec<LogEntry>>>,
}

#[allow(dead_code)]
impl RecordingSink {
    pub fn new() -> Self {
        Self {
            records: Rc::new(RefCell::new(Vec::new())),
        }
    }

    pub fn records(&self) -> Vec<LogEntry> {
        self.records.borrow().clone()
    }

    pub fn count(&self, direction: LogDirection) -> usize {
        self.records
            .borrow()
            .iter()
            .filter(|r| r.direction == direction)
            .count()
    }
}

impl LogSink for RecordingSink {
    fn emit(&self, entry: LogEntry) {
        self.records.borrow_mut().push(entry);
    }
}

fn make_imc_client(mock: MockChannel) -> UdsClient<MockChannel> {
    mock.setup_iso15765_filter(ecu_addr::IMC_TX, ecu_addr::IMC_RX).unwrap();
    UdsClient::new(mock, ecu_addr::IMC_TX, ecu_addr::IMC_RX)
}

fn make_bcm_client(mock: MockChannel) -> UdsClient<MockChannel> {
    mock.setup_iso15765_filter(ecu_addr::BCM_TX, ecu_addr::BCM_RX).unwrap();
    UdsClient::new(mock, ecu_addr::BCM_TX, ecu_addr::BCM_RX)
}

// ─── DiagnosticSessionControl (0x10) ─────────────────────────

#[test]
fn test_session_default() {
    let mock = MockChannel::new();
    mock.expect_request(ecu_addr::IMC_TX, vec![0x10, 0x01], vec![0x50, 0x01, 0x00, 0x19, 0x01, 0xF4]);
    let client = make_imc_client(mock);
    let resp = diagnostic_session(&client, DiagSession::Default).unwrap();
    assert_eq!(resp[0], 0x50);
    assert_eq!(resp[1], 0x01);
}

#[test]
fn test_session_extended() {
    let mock = MockChannel::new();
    mock.expect_request(ecu_addr::IMC_TX, vec![0x10, 0x03], vec![0x50, 0x03, 0x00, 0x19, 0x01, 0xF4]);
    let client = make_imc_client(mock);
    let resp = diagnostic_session(&client, DiagSession::Extended).unwrap();
    assert_eq!(resp[0], 0x50);
    assert_eq!(resp[1], 0x03);
}

#[test]
fn test_session_programming() {
    let mock = MockChannel::new();
    mock.expect_request(ecu_addr::IMC_TX, vec![0x10, 0x02], vec![0x50, 0x02, 0x00, 0x19, 0x01, 0xF4]);
    let client = make_imc_client(mock);
    let resp = diagnostic_session(&client, DiagSession::Programming).unwrap();
    assert_eq!(resp[0], 0x50);
    assert_eq!(resp[1], 0x02);
}

#[test]
fn test_session_rejected() {
    let mock = MockChannel::new();
    mock.expect_request(ecu_addr::IMC_TX, vec![0x10, 0x03], vec![0x7F, 0x10, 0x22]);
    let client = make_imc_client(mock);
    let err = diagnostic_session(&client, DiagSession::Extended).unwrap_err();
    match err {
        UdsError::NegativeResponse { service_id, nrc } => {
            assert_eq!(service_id, 0x10);
            assert_eq!(nrc, NegativeResponseCode::ConditionsNotCorrect);
        }
        other => panic!("Expected NRC, got {:?}", other),
    }
}

// ─── TesterPresent (0x3E) ────────────────────────────────────

#[test]
fn test_tester_present() {
    let mock = MockChannel::new();
    mock.expect_request(ecu_addr::IMC_TX, vec![0x3E, 0x00], vec![0x7E, 0x00]);
    let client = make_imc_client(mock);
    let resp = tester_present(&client).unwrap();
    assert_eq!(resp, vec![0x7E, 0x00]);
}

#[test]
fn test_tester_present_no_response() {
    let mock = MockChannel::new();
    let client = make_imc_client(mock);
    // suppressResponse — just sends, no response expected
    tester_present_no_response(&client).unwrap();
    let sent = client.channel().sent_messages();
    assert_eq!(sent.len(), 1);
    assert_eq!(sent[0].1, vec![0x3E, 0x80]);
}

// ─── ReadDataByIdentifier (0x22) ─────────────────────────────

#[test]
fn test_read_did_f190_vin() {
    let mock = MockChannel::new();
    let vin_bytes = b"SAJBA4BN0HA123456";
    let mut resp = vec![0x62, 0xF1, 0x90];
    resp.extend_from_slice(vin_bytes);
    mock.expect_request(ecu_addr::IMC_TX, vec![0x22, 0xF1, 0x90], resp);
    let client = make_imc_client(mock);
    let vin = read_vin(&client).unwrap();
    assert_eq!(vin, "SAJBA4BN0HA123456");
}

#[test]
fn test_read_did_f188_part_number() {
    let mock = MockChannel::new();
    let part = b"GX63-14F012-AC";
    let mut resp = vec![0x62, 0xF1, 0x88];
    resp.extend_from_slice(part);
    mock.expect_request(ecu_addr::IMC_TX, vec![0x22, 0xF1, 0x88], resp);
    let client = make_imc_client(mock);
    let pn = read_part_number(&client, did::MASTER_RPM_PART).unwrap();
    assert_eq!(pn, "GX63-14F012-AC");
}

#[test]
fn test_read_did_f120_v850() {
    let mock = MockChannel::new();
    let mut resp = vec![0x62, 0xF1, 0x20];
    resp.extend_from_slice(b"GX63-14F045-AB");
    mock.expect_request(ecu_addr::IMC_TX, vec![0x22, 0xF1, 0x20], resp);
    let client = make_imc_client(mock);
    let pn = read_part_number(&client, did::V850_PART).unwrap();
    assert_eq!(pn, "GX63-14F045-AB");
}

#[test]
fn test_read_did_f121_tuner() {
    let mock = MockChannel::new();
    let mut resp = vec![0x62, 0xF1, 0x21];
    resp.extend_from_slice(b"GX63-18K875-AA");
    mock.expect_request(ecu_addr::IMC_TX, vec![0x22, 0xF1, 0x21], resp);
    let client = make_imc_client(mock);
    let pn = read_part_number(&client, did::TUNER_PART).unwrap();
    assert_eq!(pn, "GX63-18K875-AA");
}

#[test]
fn test_read_did_f1a5_polar() {
    let mock = MockChannel::new();
    let mut resp = vec![0x62, 0xF1, 0xA5];
    resp.extend_from_slice(b"GX63-POLAR-01");
    mock.expect_request(ecu_addr::IMC_TX, vec![0x22, 0xF1, 0xA5], resp);
    let client = make_imc_client(mock);
    let pn = read_part_number(&client, did::POLAR_PART).unwrap();
    assert_eq!(pn, "GX63-POLAR-01");
}

#[test]
fn test_read_did_f180_pbl() {
    let mock = MockChannel::new();
    let mut resp = vec![0x62, 0xF1, 0x80];
    resp.extend_from_slice(b"GX63-PBL-001");
    mock.expect_request(ecu_addr::IMC_TX, vec![0x22, 0xF1, 0x80], resp);
    let client = make_imc_client(mock);
    let pn = read_part_number(&client, did::PBL_PART).unwrap();
    assert_eq!(pn, "GX63-PBL-001");
}

#[test]
fn test_read_did_f18c_serial() {
    let mock = MockChannel::new();
    let mut resp = vec![0x62, 0xF1, 0x8C];
    resp.extend_from_slice(b"SN123456789");
    mock.expect_request(ecu_addr::IMC_TX, vec![0x22, 0xF1, 0x8C], resp);
    let client = make_imc_client(mock);
    let pn = read_part_number(&client, did::ECU_SERIAL).unwrap();
    assert_eq!(pn, "SN123456789");
}

#[test]
fn test_read_did_f113_serial2() {
    let mock = MockChannel::new();
    let mut resp = vec![0x62, 0xF1, 0x13];
    resp.extend_from_slice(b"HW_SN_002_IMCBOARD");
    mock.expect_request(ecu_addr::IMC_TX, vec![0x22, 0xF1, 0x13], resp);
    let client = make_imc_client(mock);
    let data = read_did_data(&client, did::ECU_SERIAL2).unwrap();
    assert_eq!(String::from_utf8_lossy(&data).trim(), "HW_SN_002_IMCBOARD");
}

#[test]
fn test_read_did_d100_session() {
    let mock = MockChannel::new();
    mock.expect_request(ecu_addr::IMC_TX, vec![0x22, 0xD1, 0x00], vec![0x62, 0xD1, 0x00, 0x01]);
    let client = make_imc_client(mock);
    let data = read_did_data(&client, did::ACTIVE_DIAG_SESSION).unwrap();
    assert_eq!(data, vec![0x01]); // default session
}

#[test]
fn test_read_did_0202_status() {
    let mock = MockChannel::new();
    mock.expect_request(ecu_addr::IMC_TX, vec![0x22, 0x02, 0x02], vec![0x62, 0x02, 0x02, 0xAA]);
    let client = make_imc_client(mock);
    let data = read_did_data(&client, did::IMC_STATUS).unwrap();
    assert_eq!(data, vec![0xAA]);
}

#[test]
fn test_read_did_4028_soc() {
    let mock = MockChannel::new();
    mock.expect_request(ecu_addr::BCM_TX, vec![0x22, 0x40, 0x28], vec![0x62, 0x40, 0x28, 0x55]);
    let client = make_bcm_client(mock);
    let data = read_did_data(&client, did::BATTERY_SOC).unwrap();
    assert_eq!(data, vec![0x55]); // 85% SoC
}

#[test]
fn test_read_did_4029_temp() {
    let mock = MockChannel::new();
    mock.expect_request(ecu_addr::BCM_TX, vec![0x22, 0x40, 0x29], vec![0x62, 0x40, 0x29, 0x19]);
    let client = make_bcm_client(mock);
    let data = read_did_data(&client, did::BATTERY_TEMP).unwrap();
    assert_eq!(data, vec![0x19]); // 25°C
}

#[test]
fn test_read_did_not_supported() {
    let mock = MockChannel::new();
    mock.expect_request(ecu_addr::IMC_TX, vec![0x22, 0xFF, 0xFF], vec![0x7F, 0x22, 0x31]);
    let client = make_imc_client(mock);
    let err = read_did(&client, 0xFFFF).unwrap_err();
    match err {
        UdsError::NegativeResponse { service_id, nrc } => {
            assert_eq!(service_id, 0x22);
            assert_eq!(nrc, NegativeResponseCode::RequestOutOfRange);
        }
        other => panic!("Expected NRC, got {:?}", other),
    }
}

// ─── SecurityAccess (0x27) ───────────────────────────────────

#[test]
fn test_security_seed_request() {
    let mock = MockChannel::new();
    mock.expect_request(ecu_addr::IMC_TX, vec![0x27, 0x11], vec![0x67, 0x11, 0x11, 0x22, 0x33]);
    let client = make_imc_client(mock);
    let resp = security_request_seed(&client, 0x11).unwrap();
    assert_eq!(resp[0], 0x67);
    assert_eq!(resp[1], 0x11);
    assert_eq!(&resp[2..5], &[0x11, 0x22, 0x33]);
}

#[test]
fn test_security_key_send_ok() {
    let mock = MockChannel::new();
    mock.expect_request(ecu_addr::IMC_TX, vec![0x27, 0x12, 0xAA, 0xBB, 0xCC], vec![0x67, 0x12]);
    let client = make_imc_client(mock);
    let resp = security_send_key(&client, 0x12, &[0xAA, 0xBB, 0xCC]).unwrap();
    assert_eq!(resp, vec![0x67, 0x12]);
}

#[test]
fn test_security_key_invalid() {
    let mock = MockChannel::new();
    mock.expect_request(ecu_addr::IMC_TX, vec![0x27, 0x12, 0x00, 0x00, 0x00], vec![0x7F, 0x27, 0x35]);
    let client = make_imc_client(mock);
    let err = security_send_key(&client, 0x12, &[0x00, 0x00, 0x00]).unwrap_err();
    match err {
        UdsError::NegativeResponse { nrc, .. } => {
            assert_eq!(nrc, NegativeResponseCode::InvalidKey);
        }
        other => panic!("Expected InvalidKey NRC, got {:?}", other),
    }
}

#[test]
fn test_security_exceeded_attempts() {
    let mock = MockChannel::new();
    mock.expect_request(ecu_addr::IMC_TX, vec![0x27, 0x11], vec![0x7F, 0x27, 0x36]);
    let client = make_imc_client(mock);
    let err = security_request_seed(&client, 0x11).unwrap_err();
    match err {
        UdsError::NegativeResponse { nrc, .. } => {
            assert_eq!(nrc, NegativeResponseCode::ExceededNumberOfAttempts);
        }
        other => panic!("Expected ExceededNumberOfAttempts, got {:?}", other),
    }
}

#[test]
fn test_security_required_delay() {
    let mock = MockChannel::new();
    mock.expect_request(ecu_addr::IMC_TX, vec![0x27, 0x11], vec![0x7F, 0x27, 0x37]);
    let client = make_imc_client(mock);
    let err = security_request_seed(&client, 0x11).unwrap_err();
    match err {
        UdsError::NegativeResponse { nrc, .. } => {
            assert_eq!(nrc, NegativeResponseCode::RequiredTimeDelayNotExpired);
        }
        other => panic!("Expected RequiredTimeDelayNotExpired, got {:?}", other),
    }
}

#[test]
fn test_security_full_flow() {
    let mock = MockChannel::new();
    // Seed request → seed response
    mock.expect_request(ecu_addr::IMC_TX, vec![0x27, 0x11], vec![0x67, 0x11, 0x11, 0x22, 0x33]);
    // Compute key for seed 0x112233 with DC0314 constants
    let seed_int = 0x112233u32;
    let key_int = keygen::keygen_mki(seed_int, &keygen::DC0314_CONSTANTS);
    let key_bytes = [
        ((key_int >> 16) & 0xFF) as u8,
        ((key_int >> 8) & 0xFF) as u8,
        (key_int & 0xFF) as u8,
    ];
    let mut key_req = vec![0x27, 0x12];
    key_req.extend_from_slice(&key_bytes);
    mock.expect_request(ecu_addr::IMC_TX, key_req, vec![0x67, 0x12]);
    let client = make_imc_client(mock);
    let unlocked = security_access(&client, 0x11, 0x12, &keygen::DC0314_CONSTANTS).unwrap();
    assert!(unlocked);
}

#[test]
fn test_security_zero_seed_already_unlocked() {
    let mock = MockChannel::new();
    mock.expect_request(ecu_addr::IMC_TX, vec![0x27, 0x11], vec![0x67, 0x11, 0x00, 0x00, 0x00]);
    let client = make_imc_client(mock);
    let unlocked = security_access(&client, 0x11, 0x12, &keygen::DC0314_CONSTANTS).unwrap();
    assert!(!unlocked); // false = was already unlocked
}

// ─── RoutineControl (0x31) ───────────────────────────────────

#[test]
fn test_routine_6038_start() {
    let mock = MockChannel::new();
    mock.expect_request(
        ecu_addr::IMC_TX,
        vec![0x31, 0x01, 0x60, 0x38],
        vec![0x71, 0x01, 0x60, 0x38, 0x10, 0x01, 0x00],
    );
    let client = make_imc_client(mock);
    let result = routine_start(&client, routine::CONFIGURE_LINUX, &[], false).unwrap();
    assert_eq!(result.routine_id, 0x6038);
    assert_eq!(result.status, Some(0x10));
    assert_eq!(result.result, Some(0x01));
    assert_eq!(result.error, Some(0x00));
}

#[test]
fn test_routine_603d_eng_screen_2() {
    let mock = MockChannel::new();
    mock.expect_request(
        ecu_addr::IMC_TX,
        vec![0x31, 0x01, 0x60, 0x3D],
        vec![0x71, 0x01, 0x60, 0x3D],
    );
    let client = make_imc_client(mock);
    let result = routine_start(&client, routine::ENG_SCREEN_LVL2, &[], false).unwrap();
    assert_eq!(result.routine_id, 0x603D);
}

#[test]
fn test_routine_603e_ssh_enable() {
    let mock = MockChannel::new();
    mock.expect_request(
        ecu_addr::IMC_TX,
        vec![0x31, 0x01, 0x60, 0x3E, 0x01],
        vec![0x71, 0x01, 0x60, 0x3E],
    );
    let client = make_imc_client(mock);
    let result = routine_start(&client, routine::SSH_ENABLE, &[0x01], false).unwrap();
    assert_eq!(result.routine_id, 0x603E);
}

#[test]
fn test_routine_603e_ssh_with_pending() {
    let mock = MockChannel::new();
    mock.expect_request_multi(
        ecu_addr::IMC_TX,
        vec![0x31, 0x01, 0x60, 0x3E, 0x01],
        vec![
            vec![0x7F, 0x31, 0x78], // pending
            vec![0x71, 0x01, 0x60, 0x3E], // OK
        ],
    );
    let client = make_imc_client(mock);
    let result = routine_start(&client, routine::SSH_ENABLE, &[0x01], true).unwrap();
    assert_eq!(result.routine_id, 0x603E);
}

#[test]
fn test_routine_603f_dvd_recover() {
    let mock = MockChannel::new();
    mock.expect_request(ecu_addr::IMC_TX, vec![0x31, 0x01, 0x60, 0x3F], vec![0x71, 0x01, 0x60, 0x3F]);
    let client = make_imc_client(mock);
    let result = routine_start(&client, routine::DVD_RECOVER, &[], false).unwrap();
    assert_eq!(result.routine_id, 0x603F);
}

#[test]
fn test_routine_6041_fan_control() {
    let mock = MockChannel::new();
    mock.expect_request(ecu_addr::IMC_TX, vec![0x31, 0x01, 0x60, 0x41], vec![0x71, 0x01, 0x60, 0x41]);
    let client = make_imc_client(mock);
    let result = routine_start(&client, routine::FAN_CONTROL, &[], false).unwrap();
    assert_eq!(result.routine_id, 0x6041);
}

#[test]
fn test_routine_6042_reset_pin() {
    let mock = MockChannel::new();
    mock.expect_request(ecu_addr::IMC_TX, vec![0x31, 0x01, 0x60, 0x42], vec![0x71, 0x01, 0x60, 0x42]);
    let client = make_imc_client(mock);
    let result = routine_start(&client, routine::RESET_PIN, &[], false).unwrap();
    assert_eq!(result.routine_id, 0x6042);
}

#[test]
fn test_routine_6043_power_override() {
    let mock = MockChannel::new();
    mock.expect_request(ecu_addr::IMC_TX, vec![0x31, 0x01, 0x60, 0x43], vec![0x71, 0x01, 0x60, 0x43]);
    let client = make_imc_client(mock);
    let result = routine_start(&client, routine::POWER_OVERRIDE, &[], false).unwrap();
    assert_eq!(result.routine_id, 0x6043);
}

#[test]
fn test_routine_6045_gen_key() {
    let mock = MockChannel::new();
    mock.expect_request(ecu_addr::IMC_TX, vec![0x31, 0x01, 0x60, 0x45], vec![0x71, 0x01, 0x60, 0x45]);
    let client = make_imc_client(mock);
    let result = routine_start(&client, routine::GEN_KEY, &[], false).unwrap();
    assert_eq!(result.routine_id, 0x6045);
}

#[test]
fn test_routine_6046_shared_secret() {
    let mock = MockChannel::new();
    mock.expect_request(ecu_addr::IMC_TX, vec![0x31, 0x01, 0x60, 0x46], vec![0x71, 0x01, 0x60, 0x46]);
    let client = make_imc_client(mock);
    let result = routine_start(&client, routine::SHARED_SECRET, &[], false).unwrap();
    assert_eq!(result.routine_id, 0x6046);
}

#[test]
fn test_routine_0404_vin_learn() {
    let mock = MockChannel::new();
    mock.expect_request(
        ecu_addr::IMC_TX,
        vec![0x31, 0x01, 0x04, 0x04],
        vec![0x71, 0x01, 0x04, 0x04, 0x20],
    );
    let client = make_imc_client(mock);
    let result = routine_start(&client, routine::VIN_LEARN, &[], false).unwrap();
    assert_eq!(result.routine_id, 0x0404);
    assert_eq!(result.status, Some(0x20));
}

#[test]
fn test_routine_0e00_retrieve_ccf() {
    let mock = MockChannel::new();
    mock.expect_request(
        ecu_addr::IMC_TX,
        vec![0x31, 0x01, 0x0E, 0x00],
        vec![0x71, 0x01, 0x0E, 0x00, 0xAA, 0xBB, 0xCC],
    );
    let client = make_imc_client(mock);
    let result = routine_start(&client, routine::RETRIEVE_CCF, &[], false).unwrap();
    assert_eq!(result.routine_id, 0x0E00);
    assert_eq!(result.raw_data, vec![0xAA, 0xBB, 0xCC]);
}

#[test]
fn test_routine_0e01_report_ccf() {
    let mock = MockChannel::new();
    mock.expect_request(
        ecu_addr::IMC_TX,
        vec![0x31, 0x01, 0x0E, 0x01],
        vec![0x71, 0x01, 0x0E, 0x01, 0x01, 0x02],
    );
    let client = make_imc_client(mock);
    let result = routine_start(&client, routine::REPORT_CCF, &[], false).unwrap();
    assert_eq!(result.routine_id, 0x0E01);
}

#[test]
fn test_routine_0e02_list_ccf() {
    let mock = MockChannel::new();
    mock.expect_request(
        ecu_addr::IMC_TX,
        vec![0x31, 0x01, 0x0E, 0x02],
        vec![0x71, 0x01, 0x0E, 0x02, 0x05],
    );
    let client = make_imc_client(mock);
    let result = routine_start(&client, routine::LIST_CCF, &[], false).unwrap();
    assert_eq!(result.routine_id, 0x0E02);
}

#[test]
fn test_routine_rejected_security() {
    let mock = MockChannel::new();
    mock.expect_request(
        ecu_addr::IMC_TX,
        vec![0x31, 0x01, 0x60, 0x3E, 0x01],
        vec![0x7F, 0x31, 0x33], // securityAccessDenied
    );
    let client = make_imc_client(mock);
    let err = routine_start(&client, routine::SSH_ENABLE, &[0x01], false).unwrap_err();
    match err {
        UdsError::NegativeResponse { nrc, .. } => {
            assert_eq!(nrc, NegativeResponseCode::SecurityAccessDenied);
        }
        other => panic!("Expected SecurityAccessDenied, got {:?}", other),
    }
}

#[test]
fn test_routine_rejected_session() {
    let mock = MockChannel::new();
    mock.expect_request(
        ecu_addr::IMC_TX,
        vec![0x31, 0x01, 0x60, 0x3E, 0x01],
        vec![0x7F, 0x31, 0x7E], // subFunctionNotSupportedInActiveSession
    );
    let client = make_imc_client(mock);
    let err = routine_start(&client, routine::SSH_ENABLE, &[0x01], false).unwrap_err();
    match err {
        UdsError::NegativeResponse { nrc, .. } => {
            assert_eq!(nrc, NegativeResponseCode::SubFunctionNotSupportedInActiveSession);
        }
        other => panic!("Expected SubFunctionNotSupportedInActiveSession, got {:?}", other),
    }
}

// ─── ECUReset (0x11) ─────────────────────────────────────────

#[test]
fn test_ecu_reset_hard() {
    let mock = MockChannel::new();
    mock.expect_request(ecu_addr::IMC_TX, vec![0x11, 0x01], vec![0x51, 0x01]);
    let client = make_imc_client(mock);
    let resp = ecu_reset(&client, ResetType::HardReset).unwrap();
    assert_eq!(resp, vec![0x51, 0x01]);
}

#[test]
fn test_ecu_reset_soft() {
    let mock = MockChannel::new();
    mock.expect_request(ecu_addr::IMC_TX, vec![0x11, 0x03], vec![0x51, 0x03]);
    let client = make_imc_client(mock);
    let resp = ecu_reset(&client, ResetType::SoftReset).unwrap();
    assert_eq!(resp, vec![0x51, 0x03]);
}

#[test]
fn test_ecu_reset_key_off_on() {
    let mock = MockChannel::new();
    mock.expect_request(ecu_addr::IMC_TX, vec![0x11, 0x02], vec![0x51, 0x02]);
    let client = make_imc_client(mock);
    let resp = ecu_reset(&client, ResetType::KeyOffOnReset).unwrap();
    assert_eq!(resp, vec![0x51, 0x02]);
}

// ─── SSH Enable Flow (integration) ──────────────────────────

#[test]
fn test_ssh_enable_full_flow() {
    let mock = MockChannel::new();
    // TesterPresent
    mock.expect_request(ecu_addr::IMC_TX, vec![0x3E, 0x00], vec![0x7E, 0x00]);
    // Extended session
    mock.expect_request(ecu_addr::IMC_TX, vec![0x10, 0x03], vec![0x50, 0x03, 0x00, 0x19, 0x01, 0xF4]);
    // Security seed
    mock.expect_request(ecu_addr::IMC_TX, vec![0x27, 0x11], vec![0x67, 0x11, 0x11, 0x22, 0x33]);
    // Security key (computed)
    let seed_int = 0x112233u32;
    let key_int = keygen::keygen_mki(seed_int, &keygen::DC0314_CONSTANTS);
    let key_bytes = [
        ((key_int >> 16) & 0xFF) as u8,
        ((key_int >> 8) & 0xFF) as u8,
        (key_int & 0xFF) as u8,
    ];
    let mut key_req = vec![0x27, 0x12];
    key_req.extend_from_slice(&key_bytes);
    mock.expect_request(ecu_addr::IMC_TX, key_req, vec![0x67, 0x12]);
    // SSH routine
    mock.expect_request(
        ecu_addr::IMC_TX,
        vec![0x31, 0x01, 0x60, 0x3E, 0x01],
        vec![0x71, 0x01, 0x60, 0x3E],
    );

    let client = make_imc_client(mock);
    let result = enable_ssh(&client).unwrap();
    assert!(result.success);
    assert_eq!(result.ip_address, "192.168.103.11");
    assert!(result.message.contains("SSH ENABLED"));
}

#[test]
fn test_ssh_enable_security_fails() {
    let mock = MockChannel::new();
    mock.expect_request(ecu_addr::IMC_TX, vec![0x3E, 0x00], vec![0x7E, 0x00]);
    mock.expect_request(ecu_addr::IMC_TX, vec![0x10, 0x03], vec![0x50, 0x03, 0x00, 0x19, 0x01, 0xF4]);
    // Security seed fails
    mock.expect_request(ecu_addr::IMC_TX, vec![0x27, 0x11], vec![0x7F, 0x27, 0x36]);

    let client = make_imc_client(mock);
    let err = enable_ssh(&client).unwrap_err();
    match err {
        UdsError::NegativeResponse { nrc, .. } => {
            assert_eq!(nrc, NegativeResponseCode::ExceededNumberOfAttempts);
        }
        other => panic!("Expected NRC, got {:?}", other),
    }
}

#[test]
fn test_ssh_enable_pending_handling() {
    let mock = MockChannel::new();
    mock.expect_request(ecu_addr::IMC_TX, vec![0x3E, 0x00], vec![0x7E, 0x00]);
    mock.expect_request(ecu_addr::IMC_TX, vec![0x10, 0x03], vec![0x50, 0x03, 0x00, 0x19, 0x01, 0xF4]);
    mock.expect_request(ecu_addr::IMC_TX, vec![0x27, 0x11], vec![0x67, 0x11, 0x00, 0x00, 0x00]); // already unlocked
    // SSH routine with pending
    mock.expect_request_multi(
        ecu_addr::IMC_TX,
        vec![0x31, 0x01, 0x60, 0x3E, 0x01],
        vec![
            vec![0x7F, 0x31, 0x78], // pending
            vec![0x71, 0x01, 0x60, 0x3E], // OK
        ],
    );

    let client = make_imc_client(mock);
    let result = enable_ssh(&client).unwrap();
    assert!(result.success);
}

#[test]
fn test_ssh_enable_routine_fails() {
    let mock = MockChannel::new();
    mock.expect_request(ecu_addr::IMC_TX, vec![0x3E, 0x00], vec![0x7E, 0x00]);
    mock.expect_request(ecu_addr::IMC_TX, vec![0x10, 0x03], vec![0x50, 0x03, 0x00, 0x19, 0x01, 0xF4]);
    mock.expect_request(ecu_addr::IMC_TX, vec![0x27, 0x11], vec![0x67, 0x11, 0x00, 0x00, 0x00]); // already unlocked
    // SSH routine rejected
    mock.expect_request(
        ecu_addr::IMC_TX,
        vec![0x31, 0x01, 0x60, 0x3E, 0x01],
        vec![0x7F, 0x31, 0x22], // conditionsNotCorrect
    );

    let client = make_imc_client(mock);
    let err = enable_ssh(&client).unwrap_err();
    match err {
        UdsError::NegativeResponse { nrc, .. } => {
            assert_eq!(nrc, NegativeResponseCode::ConditionsNotCorrect);
        }
        other => panic!("Expected NRC, got {:?}", other),
    }
}

// ─── execute_routine_sdd tests ─────────────────────────────

#[test]
fn test_execute_routine_sdd_with_security() {
    let mock = MockChannel::new();
    // TesterPresent
    mock.expect_request(ecu_addr::IMC_TX, vec![0x3E, 0x00], vec![0x7E, 0x00]);
    // Extended session
    mock.expect_request(ecu_addr::IMC_TX, vec![0x10, 0x03], vec![0x50, 0x03, 0x00, 0x19, 0x01, 0xF4]);
    // Security seed
    mock.expect_request(ecu_addr::IMC_TX, vec![0x27, 0x11], vec![0x67, 0x11, 0x11, 0x22, 0x33]);
    // Security key (computed)
    let seed_int = 0x112233u32;
    let key_int = keygen::keygen_mki(seed_int, &keygen::DC0314_CONSTANTS);
    let key_bytes = [
        ((key_int >> 16) & 0xFF) as u8,
        ((key_int >> 8) & 0xFF) as u8,
        (key_int & 0xFF) as u8,
    ];
    let mut key_req = vec![0x27, 0x12];
    key_req.extend_from_slice(&key_bytes);
    mock.expect_request(ecu_addr::IMC_TX, key_req, vec![0x67, 0x12]);
    // Routine 0x603D
    mock.expect_request(
        ecu_addr::IMC_TX,
        vec![0x31, 0x01, 0x60, 0x3D],
        vec![0x71, 0x01, 0x60, 0x3D],
    );

    let client = make_imc_client(mock);
    let result = execute_routine_sdd(&client, routine::ENG_SCREEN_LVL2, &[], true, false).unwrap();
    assert_eq!(result.routine_id, 0x603D);
}

#[test]
fn test_execute_routine_sdd_without_security() {
    let mock = MockChannel::new();
    // TesterPresent
    mock.expect_request(ecu_addr::IMC_TX, vec![0x3E, 0x00], vec![0x7E, 0x00]);
    // Extended session
    mock.expect_request(ecu_addr::IMC_TX, vec![0x10, 0x03], vec![0x50, 0x03, 0x00, 0x19, 0x01, 0xF4]);
    // NO security step — goes straight to routine
    mock.expect_request(
        ecu_addr::IMC_TX,
        vec![0x31, 0x01, 0x04, 0x04],
        vec![0x71, 0x01, 0x04, 0x04, 0x20],
    );

    let client = make_imc_client(mock);
    let result = execute_routine_sdd(&client, routine::VIN_LEARN, &[], false, false).unwrap();
    assert_eq!(result.routine_id, 0x0404);
    assert_eq!(result.status, Some(0x20));
}

#[test]
fn test_execute_routine_sdd_security_fails() {
    let mock = MockChannel::new();
    // TesterPresent
    mock.expect_request(ecu_addr::IMC_TX, vec![0x3E, 0x00], vec![0x7E, 0x00]);
    // Extended session
    mock.expect_request(ecu_addr::IMC_TX, vec![0x10, 0x03], vec![0x50, 0x03, 0x00, 0x19, 0x01, 0xF4]);
    // Security seed fails — exceeded attempts
    mock.expect_request(ecu_addr::IMC_TX, vec![0x27, 0x11], vec![0x7F, 0x27, 0x36]);

    let client = make_imc_client(mock);
    let err = execute_routine_sdd(&client, routine::ENG_SCREEN_LVL2, &[], true, false).unwrap_err();
    match err {
        UdsError::NegativeResponse { nrc, .. } => {
            assert_eq!(nrc, NegativeResponseCode::ExceededNumberOfAttempts);
        }
        other => panic!("Expected ExceededNumberOfAttempts, got {:?}", other),
    }
}

// ─── Existing decode tests ───────────────────────────────────

#[test]
fn test_describe_6038_status_finished() {
    let desc = describe_6038(Some(0x10), None, None);
    assert!(desc.contains("Routine finished"));
}

#[test]
fn test_describe_6038_result_completed() {
    let desc = describe_6038(None, Some(0x01), None);
    assert!(desc.contains("Completed"));
}

#[test]
fn test_describe_6038_result_failed() {
    let desc = describe_6038(None, Some(0x03), None);
    assert!(desc.contains("Failed to configure"));
}

#[test]
fn test_describe_6038_error_boot_param() {
    let desc = describe_6038(None, None, Some(0x01));
    assert!(desc.contains("Boot parameter"));
}

#[test]
fn test_describe_6038_error_symlinks() {
    let desc = describe_6038(None, None, Some(0x02));
    assert!(desc.contains("Symlinks"));
}

#[test]
fn test_describe_6038_error_startup_xml() {
    let desc = describe_6038(None, None, Some(0x04));
    assert!(desc.contains("Start-up configuration XML"));
}

#[test]
fn test_describe_6038_error_manifest() {
    let desc = describe_6038(None, None, Some(0x08));
    assert!(desc.contains("Manifest symlinks"));
}

#[test]
fn test_describe_6038_error_dvd() {
    let desc = describe_6038(None, None, Some(0x10));
    assert!(desc.contains("DVD region"));
}

#[test]
fn test_describe_6038_error_polar() {
    let desc = describe_6038(None, None, Some(0x20));
    assert!(desc.contains("Polar switch"));
}

#[test]
fn test_describe_6038_error_gracenotes() {
    let desc = describe_6038(None, None, Some(0x40));
    assert!(desc.contains("Gracenotes"));
}

#[test]
fn test_describe_6038_error_app_mgr() {
    let desc = describe_6038(None, None, Some(0x80));
    assert!(desc.contains("Application manager LCF"));
}

#[test]
fn test_describe_6038_multiple_errors() {
    let desc = describe_6038(None, None, Some(0x03)); // boot param + symlinks
    assert!(desc.contains("Boot parameter"));
    assert!(desc.contains("Symlinks"));
}

#[test]
fn test_describe_6038_no_errors() {
    let desc = describe_6038(None, None, Some(0x00));
    assert!(desc.contains("No errors"));
}

#[test]
fn test_describe_0404_completed() {
    let desc = describe_0404(Some(0x20));
    assert!(desc.contains("Routine completed"));
}

#[test]
fn test_describe_0404_aborted() {
    let desc = describe_0404(Some(0x21));
    assert!(desc.contains("Routine aborted"));
}

#[test]
fn test_describe_0404_active() {
    let desc = describe_0404(Some(0x22));
    assert!(desc.contains("Routine active"));
}

#[test]
fn test_diag_session_values() {
    assert_eq!(DiagSession::Default.to_byte(), 0x01);
    assert_eq!(DiagSession::Programming.to_byte(), 0x02);
    assert_eq!(DiagSession::Extended.to_byte(), 0x03);
}

#[test]
fn test_ecu_addresses() {
    assert_eq!(ecu_addr::IMC_TX, 0x7B3);
    assert_eq!(ecu_addr::IMC_RX, 0x7BB);
    assert_eq!(ecu_addr::GWM_TX, 0x716);
    assert_eq!(ecu_addr::GWM_RX, 0x71E);
    assert_eq!(ecu_addr::BCM_TX, 0x726);
    assert_eq!(ecu_addr::BCM_RX, 0x72E);
    assert_eq!(ecu_addr::IPC_TX, 0x720);
    assert_eq!(ecu_addr::IPC_RX, 0x728);
}

#[test]
fn test_did_values() {
    assert_eq!(did::VIN, 0xF190);
    assert_eq!(did::BATTERY_VOLTAGE, 0x402A);
    assert_eq!(did::ECU_SERIAL, 0xF18C);
}

#[test]
fn test_routine_ids() {
    assert_eq!(routine::CONFIGURE_LINUX, 0x6038);
    assert_eq!(routine::SSH_ENABLE, 0x603E);
    assert_eq!(routine::VIN_LEARN, 0x0404);
}

// Requests, byte for byte

#[test]
fn request_bytes() {
    assert_eq!(session_request(DiagSession::Extended), vec![0x10, 0x03]);
    assert_eq!(session_request(DiagSession::Default), vec![0x10, 0x01]);
    assert_eq!(tester_present_request(false), vec![0x3E, 0x00]);
    assert_eq!(tester_present_request(true), vec![0x3E, 0x80]);
    assert_eq!(read_did_request(0xF190), vec![0x22, 0xF1, 0x90]);
    assert_eq!(read_did_request(0x0202), vec![0x22, 0x02, 0x02]);
    assert_eq!(seed_request(0x11), vec![0x27, 0x11]);
    assert_eq!(key_request(0x12, &[0xAA, 0xBB, 0xCC]), vec![0x27, 0x12, 0xAA, 0xBB, 0xCC]);
    assert_eq!(
        routine_request(ROUTINE_START, 0x603E, &[0x01]),
        vec![0x31, 0x01, 0x60, 0x3E, 0x01]
    );
    assert_eq!(routine_request(ROUTINE_RESULTS, 0x0E00, &[]), vec![0x31, 0x03, 0x0E, 0x00]);
    assert_eq!(routine_request(ROUTINE_STOP, 0x0404, &[]), vec![0x31, 0x02, 0x04, 0x04]);
    assert_eq!(reset_request(ResetType::HardReset), vec![0x11, 0x01]);
    assert_eq!(reset_request(ResetType::KeyOffOnReset), vec![0x11, 0x02]);
    assert_eq!(reset_request(ResetType::SoftReset), vec![0x11, 0x03]);
}

#[test]
fn short_responses_are_invalid() {
    match check_did_response(vec![0x62, 0xF1]).unwrap_err() {
        UdsError::InvalidResponse(text) => assert_eq!(text, "ReadDID response too short"),
        other => panic!("Expected InvalidResponse, got {:?}", other),
    }
    assert_eq!(check_did_response(vec![0x62, 0xF1, 0x90]).unwrap(), vec![0x62, 0xF1, 0x90]);
    match check_seed_response(vec![0x67]).unwrap_err() {
        UdsError::InvalidResponse(text) => {
            assert_eq!(text, "SecurityAccess seed response too short")
        }
        other => panic!("Expected InvalidResponse, got {:?}", other),
    }
    assert_eq!(check_seed_response(vec![0x67, 0x11]).unwrap(), vec![0x67, 0x11]);
    assert_eq!(did_data(&[0x62, 0xF1, 0x90]), Vec::<u8>::new());
    assert_eq!(did_data(&[0x62, 0xF1, 0x90, 0x41, 0x42]), vec![0x41, 0x42]);
}

#[test]
fn read_did_rejects_short_positive_response() {
    let mock = MockChannel::new();
    mock.expect_request(ecu_addr::IMC_TX, vec![0x22, 0xF1, 0x90], vec![0x62, 0xF1]);
    let client = make_imc_client(mock);
    match read_did(&client, 0xF190).unwrap_err() {
        UdsError::InvalidResponse(text) => assert_eq!(text, "ReadDID response too short"),
        other => panic!("Expected InvalidResponse, got {:?}", other),
    }
}

#[test]
fn seed_step_decides_what_follows() {
    assert!(matches!(
        seed_step(&[0x67, 0x11, 0x11, 0x22], 0x12, &keygen::DC0314_CONSTANTS),
        SeedStep::TooShort
    ));
    assert!(matches!(
        seed_step(&[0x67, 0x11, 0x00, 0x00, 0x00], 0x12, &keygen::DC0314_CONSTANTS),
        SeedStep::Unlocked
    ));
    match seed_step(&[0x67, 0x11, 0x11, 0x22, 0x33], 0x12, &keygen::DC0314_CONSTANTS) {
        SeedStep::SendKey(request) => {
            let key = keygen::keygen_mki(0x112233, &keygen::DC0314_CONSTANTS);
            assert_eq!(
                request,
                vec![0x27, 0x12, (key >> 16) as u8, (key >> 8) as u8, key as u8]
            );
            assert_eq!(request, vec![0x27, 0x12, 0x4B, 0xC0, 0x9C]);
        }
        _ => panic!("Expected a key request"),
    }
}

#[test]
fn security_access_short_seed_is_invalid() {
    let mock = MockChannel::new();
    mock.expect_request(ecu_addr::IMC_TX, vec![0x27, 0x11], vec![0x67, 0x11, 0x11]);
    let client = make_imc_client(mock);
    match security_access(&client, 0x11, 0x12, &keygen::DC0314_CONSTANTS).unwrap_err() {
        UdsError::InvalidResponse(text) => {
            assert_eq!(text, "Seed response too short, expected at least 5 bytes")
        }
        other => panic!("Expected InvalidResponse, got {:?}", other),
    }
}

#[test]
fn security_unlock_with_canonical_seed_sends_the_key() {
    let mock = MockChannel::new();
    mock.expect_request(ecu_addr::IMC_TX, vec![0x27, 0x11], vec![0x67, 0x11, 0x11, 0x22, 0x33]);
    mock.expect_request(
        ecu_addr::IMC_TX,
        vec![0x27, 0x12, 0x4B, 0xC0, 0x9C],
        vec![0x67, 0x12],
    );
    let client = make_imc_client(mock);
    assert!(security_access(&client, 0x11, 0x12, &keygen::DC0314_CONSTANTS).unwrap());
    let sent = client.channel().sent_messages();
    assert_eq!(sent.len(), 2);
    assert_eq!(sent[1].1, vec![0x27, 0x12, 0x4B, 0xC0, 0x9C]);
    client.channel().verify();
}

#[test]
fn routine_result_reads_the_bytes() {
    let result = routine_result(0x6038, &[0x71, 0x01, 0x60, 0x38, 0x10, 0x01, 0x03, 0x99]);
    assert_eq!(result.routine_id, 0x6038);
    assert_eq!(result.raw_data, vec![0x10, 0x01, 0x03, 0x99]);
    assert_eq!(result.status, Some(0x10));
    assert_eq!(result.result, Some(0x01));
    assert_eq!(result.error, Some(0x03));
    assert_eq!(
        result.description,
        "Status: Routine finished (0x10) | Result: Completed (0x01) | Errors: Boot parameter, Symlinks"
    );
    let bare = routine_result(0x603D, &[0x71, 0x01, 0x60, 0x3D]);
    assert!(bare.raw_data.is_empty());
    assert_eq!(bare.status, None);
    assert_eq!(bare.description, "OK");
}

#[test]
fn routine_descriptions_exact() {
    assert_eq!(describe_6038(None, None, None), "OK");
    assert_eq!(describe_6038(Some(0x21), None, None), "Status: Routine aborted (0x21)");
    assert_eq!(describe_6038(Some(0x55), None, None), "Status: Unknown status (0x55)");
    assert_eq!(describe_6038(None, Some(0x02), None), "Result: In progress (0x02)");
    assert_eq!(describe_6038(None, Some(0x09), None), "Result: Unknown result (0x09)");
    assert_eq!(describe_6038(None, None, Some(0x00)), "No errors");
    assert_eq!(
        describe_6038(None, None, Some(0xFF)),
        "Errors: Boot parameter, Symlinks, Start-up configuration XML, Manifest symlinks, \
         DVD region, Polar switch, Gracenotes, Application manager LCF"
    );
    assert_eq!(
        describe_6038(Some(0x20), Some(0x03), Some(0x90)),
        "Status: Routine completed (0x20) | Result: Failed to configure (0x03) | \
         Errors: DVD region, Application manager LCF"
    );
    assert_eq!(describe_0404(None), "OK");
    assert_eq!(describe_0404(Some(0x20)), "Routine completed (0x20)");
    assert_eq!(describe_0404(Some(0x10)), "Unknown status (0x10)");
    assert_eq!(describe_routine_result(0x603E, None, None, None), "OK");
    assert_eq!(
        describe_routine_result(0x603E, Some(0x01), Some(0x02), Some(0xAB)),
        "status=0x01, result=0x02, error=0xAB"
    );
    assert_eq!(describe_routine_result(0x603E, Some(0x0F), None, None), "status=0x0F");
    assert_eq!(
        describe_routine_result(0x0404, Some(0x22), Some(0x01), None),
        "Routine active (0x22)"
    );
}

#[test]
fn ssh_message_holds_the_description() {
    let mock = MockChannel::new();
    mock.expect_request(ecu_addr::IMC_TX, vec![0x3E, 0x00], vec![0x7E, 0x00]);
    mock.expect_request(ecu_addr::IMC_TX, vec![0x10, 0x03], vec![0x50, 0x03, 0x00, 0x19, 0x01, 0xF4]);
    mock.expect_request(ecu_addr::IMC_TX, vec![0x27, 0x11], vec![0x67, 0x11, 0x00, 0x00, 0x00]);
    mock.expect_request(
        ecu_addr::IMC_TX,
        vec![0x31, 0x01, 0x60, 0x3E, 0x01],
        vec![0x71, 0x01, 0x60, 0x3E, 0x01],
    );
    let client = make_imc_client(mock);
    let result = enable_ssh(&client).unwrap();
    assert_eq!(
        result.message,
        "SSH ENABLED — Connect: root@192.168.103.11 | status=0x01"
    );
}

#[test]
fn prerequisite_flow_stops_at_first_failure() {
    let mock = MockChannel::new();
    mock.expect_request(ecu_addr::IMC_TX, vec![0x3E, 0x00], vec![0x7E, 0x00]);
    mock.expect_request(ecu_addr::IMC_TX, vec![0x10, 0x03], vec![0x7F, 0x10, 0x22]);
    let client = make_imc_client(mock);
    let err = sdd_prerequisite_flow(&client, true).unwrap_err();
    assert!(matches!(
        err,
        UdsError::NegativeResponse {
            service_id: 0x10,
            nrc: NegativeResponseCode::ConditionsNotCorrect
        }
    ));
    // The seed was never asked for
    assert_eq!(client.channel().sent_messages().len(), 2);
}

#[test]
fn reset_type_bytes() {
    assert_eq!(ResetType::HardReset.to_byte(), 0x01);
    assert_eq!(ResetType::KeyOffOnReset.to_byte(), 0x02);
    assert_eq!(ResetType::SoftReset.to_byte(), 0x03);
}

#[test]
fn seed_and_key_settle_the_access() {
    match settled_by_seed(&SeedStep::TooShort) {
        Some(Err(UdsError::InvalidResponse(text))) => {
            assert_eq!(text, "Seed response too short, expected at least 5 bytes")
        }
        other => panic!("Expected InvalidResponse, got {:?}", other),
    }
    assert!(matches!(settled_by_seed(&SeedStep::Unlocked), Some(Ok(false))));
    assert!(settled_by_seed(&SeedStep::SendKey(vec![0x27, 0x12, 0x4B, 0xC0, 0x9C])).is_none());
    assert!(matches!(key_outcome(Ok(vec![0x67, 0x12])), Ok(true)));
    assert!(matches!(key_outcome(Ok(Vec::new())), Ok(true)));
    match key_outcome(Err(UdsError::NegativeResponse {
        service_id: 0x27,
        nrc: NegativeResponseCode::InvalidKey,
    })) {
        Err(UdsError::NegativeResponse { service_id, nrc }) => {
            assert_eq!(service_id, 0x27);
            assert_eq!(nrc, NegativeResponseCode::InvalidKey);
        }
        other => panic!("Expected NegativeResponse, got {:?}", other),
    }
    assert!(matches!(key_outcome(Err(UdsError::Timeout)), Err(UdsError::Timeout)));
}

#[test]
fn routine_answer_holds_the_bytes_of_the_response() {
    let mock = MockChannel::new();
    mock.expect_request(
        ecu_addr::IMC_TX,
        vec![0x31, 0x01, 0x60, 0x38],
        vec![0x71, 0x01, 0x60, 0x38, 0x20, 0x02],
    );
    let client = make_imc_client(mock);
    let result = routine_start(&client, routine::CONFIGURE_LINUX, &[], false).unwrap();
    assert_eq!(result.raw_data, vec![0x20, 0x02]);
    assert_eq!(result.status, Some(0x20));
    assert_eq!(result.result, Some(0x02));
    assert_eq!(result.error, None);
    assert_eq!(
        result.description,
        "Status: Routine completed (0x20) | Result: In progress (0x02)"
    );
}
