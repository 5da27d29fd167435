use uds_host::ecu_emulator::{
    broadcast_frame, create_handler, respond, BcmHandler, EcuEmulatorManager, EcuHandler, EcuId,
    GwmHandler, IpcHandler, BROADCAST_COUNT, BROADCAST_MSGS,
};
use uds_host::j2534::types::{PassThruMsg, ISO15765_FRAME_PAD, PROTOCOL_CAN, PROTOCOL_ISO15765};
use uds_host::uds::services::ecu_addr;

// ECU ID tests

#[test]
fn test_ecu_id_addresses() {
    assert_eq!(EcuId::Bcm.tx_id(), 0x726);
    assert_eq!(EcuId::Bcm.rx_id(), 0x72E);
    assert_eq!(EcuId::Gwm.tx_id(), 0x716);
    assert_eq!(EcuId::Gwm.rx_id(), 0x71E);
    assert_eq!(EcuId::Ipc.tx_id(), 0x720);
    assert_eq!(EcuId::Ipc.rx_id(), 0x728);
}

#[test]
fn test_ecu_id_names() {
    assert_eq!(EcuId::Bcm.name(), "BCM");
    assert_eq!(EcuId::Gwm.name(), "GWM");
    assert_eq!(EcuId::Ipc.name(), "IPC");
}

#[test]
fn test_ecu_id_from_str() {
    assert_eq!(EcuId::from_str("bcm"), Some(EcuId::Bcm));
    assert_eq!(EcuId::from_str("BCM"), Some(EcuId::Bcm));
    assert_eq!(EcuId::from_str("gwm"), Some(EcuId::Gwm));
    assert_eq!(EcuId::from_str("ipc"), Some(EcuId::Ipc));
    assert_eq!(EcuId::from_str("unknown"), None);
}

#[test]
fn test_ecu_id_all() {
    let all = EcuId::all();
    assert_eq!(all.len(), 3);
    assert!(all.contains(&EcuId::Bcm));
    assert!(all.contains(&EcuId::Gwm));
    assert!(all.contains(&EcuId::Ipc));
}

// BCM handler tests

#[test]
fn test_bcm_handler_tester_present() {
    let handler = BcmHandler;
    let resp = handler.build_response(&[0x3E, 0x00]).unwrap();
    assert_eq!(resp, vec![0x7E, 0x00]);
}

#[test]
fn test_bcm_handler_diag_session() {
    let handler = BcmHandler;
    let resp = handler.build_response(&[0x10, 0x01]).unwrap();
    assert_eq!(resp, vec![0x50, 0x01, 0x00, 0x19, 0x01, 0xF4]);
}

#[test]
fn test_bcm_handler_diag_session_extended() {
    let handler = BcmHandler;
    let resp = handler.build_response(&[0x10, 0x03]).unwrap();
    assert_eq!(resp, vec![0x50, 0x03, 0x00, 0x19, 0x01, 0xF4]);
}

#[test]
fn test_bcm_handler_security_access() {
    let handler = BcmHandler;
    let resp = handler.build_response(&[0x27, 0x11]).unwrap();
    assert_eq!(resp, vec![0x67, 0x11, 0x00, 0x00, 0x00]);
}

#[test]
fn test_bcm_handler_voltage_returns_nrc() {
    // Real BCM returns 0x31 for 402A — battery data is on GWM
    let handler = BcmHandler;
    let resp = handler.build_response(&[0x22, 0x40, 0x2A]).unwrap();
    assert_eq!(resp, vec![0x7F, 0x22, 0x31]);
}

#[test]
fn test_bcm_handler_soc_returns_nrc() {
    let handler = BcmHandler;
    let resp = handler.build_response(&[0x22, 0x40, 0x28]).unwrap();
    assert_eq!(resp, vec![0x7F, 0x22, 0x31]);
}

#[test]
fn test_bcm_handler_temp_returns_nrc() {
    let handler = BcmHandler;
    let resp = handler.build_response(&[0x22, 0x40, 0x29]).unwrap();
    assert_eq!(resp, vec![0x7F, 0x22, 0x31]);
}

#[test]
fn test_bcm_handler_door_status_returns_nrc() {
    let handler = BcmHandler;
    let resp = handler.build_response(&[0x22, 0x40, 0x30]).unwrap();
    assert_eq!(resp, vec![0x7F, 0x22, 0x31]);
}

#[test]
fn test_bcm_handler_fuel_level_returns_nrc() {
    let handler = BcmHandler;
    let resp = handler.build_response(&[0x22, 0x40, 0x32]).unwrap();
    assert_eq!(resp, vec![0x7F, 0x22, 0x31]);
}

#[test]
fn test_bcm_handler_vin() {
    let handler = BcmHandler;
    let resp = handler.build_response(&[0x22, 0xF1, 0x90]).unwrap();
    assert_eq!(resp[0], 0x62);
    let vin = String::from_utf8_lossy(&resp[3..]);
    assert_eq!(vin, "SAJBL4BVXGCY16353");
}

#[test]
fn test_bcm_handler_sw_part() {
    let handler = BcmHandler;
    let resp = handler.build_response(&[0x22, 0xF1, 0x88]).unwrap();
    assert_eq!(resp[0], 0x62);
    let part = String::from_utf8_lossy(&resp[3..]).trim_matches('\0').to_string();
    assert_eq!(part.trim(), "GX73-14C184-AK");
}

#[test]
fn test_bcm_handler_ecu_serial() {
    let handler = BcmHandler;
    let resp = handler.build_response(&[0x22, 0xF1, 0x8C]).unwrap();
    assert_eq!(resp[0], 0x62);
    let serial = String::from_utf8_lossy(&resp[3..]);
    assert_eq!(serial, "1979149808");
}

#[test]
fn test_bcm_handler_hw_part() {
    let handler = BcmHandler;
    let resp = handler.build_response(&[0x22, 0xF1, 0x13]).unwrap();
    assert_eq!(resp[0], 0x62);
    let part = String::from_utf8_lossy(&resp[3..]).trim_matches('\0').to_string();
    assert_eq!(part.trim(), "GX73-14F041-AK");
}

#[test]
fn test_bcm_handler_ecu_reset() {
    let handler = BcmHandler;
    let resp = handler.build_response(&[0x11, 0x01]).unwrap();
    assert_eq!(resp, vec![0x51, 0x01]);
}

#[test]
fn test_bcm_handler_comm_control() {
    let handler = BcmHandler;
    let resp = handler.build_response(&[0x28, 0x01, 0x01]).unwrap();
    assert_eq!(resp, vec![0x68, 0x01]);
}

#[test]
fn test_bcm_handler_write_did() {
    let handler = BcmHandler;
    let resp = handler.build_response(&[0x2E, 0x40, 0x30, 0x01]).unwrap();
    assert_eq!(resp, vec![0x6E, 0x40, 0x30]);
}

#[test]
fn test_bcm_handler_routine_control() {
    let handler = BcmHandler;
    let resp = handler.build_response(&[0x31, 0x01, 0x60, 0x3E]).unwrap();
    assert_eq!(resp, vec![0x71, 0x01, 0x60, 0x3E]);
}

#[test]
fn test_bcm_handler_unknown_did() {
    let handler = BcmHandler;
    let resp = handler.build_response(&[0x22, 0xFF, 0xFF]).unwrap();
    assert_eq!(resp, vec![0x7F, 0x22, 0x31]);
}

#[test]
fn test_bcm_handler_unknown_service() {
    let handler = BcmHandler;
    let resp = handler.build_response(&[0x99]).unwrap();
    assert_eq!(resp, vec![0x7F, 0x99, 0x11]);
}

// GWM handler tests

#[test]
fn test_gwm_handler_tester_present() {
    let handler = GwmHandler;
    let resp = handler.build_response(&[0x3E, 0x00]).unwrap();
    assert_eq!(resp, vec![0x7E, 0x00]);
}

#[test]
fn test_gwm_handler_diag_session() {
    let handler = GwmHandler;
    let resp = handler.build_response(&[0x10, 0x03]).unwrap();
    assert_eq!(resp, vec![0x50, 0x03, 0x00, 0x19, 0x01, 0xF4]);
}

#[test]
fn test_gwm_handler_unknown_service() {
    // The gateway reads by identifier, and holds none
    let handler = GwmHandler;
    let resp = handler.build_response(&[0x22, 0xF1, 0x90]).unwrap();
    assert_eq!(resp, vec![0x7F, 0x22, 0x31]);
}

// IPC handler tests

#[test]
fn test_ipc_handler_tester_present() {
    let handler = IpcHandler;
    let resp = handler.build_response(&[0x3E, 0x00]).unwrap();
    assert_eq!(resp, vec![0x7E, 0x00]);
}

#[test]
fn test_ipc_handler_diag_session() {
    let handler = IpcHandler;
    let resp = handler.build_response(&[0x10, 0x01]).unwrap();
    assert_eq!(resp, vec![0x50, 0x01, 0x00, 0x19, 0x01, 0xF4]);
}

#[test]
fn test_ipc_handler_unknown_service() {
    // The cluster answers a routine as every emulated ECU does
    let handler = IpcHandler;
    let resp = handler.build_response(&[0x31, 0x01, 0x04, 0x04]).unwrap();
    assert_eq!(resp, vec![0x71, 0x01, 0x04, 0x04]);
}

// create_handler

#[test]
fn test_create_handler_bcm() {
    let handler = create_handler(EcuId::Bcm);
    assert_eq!(handler.name(), "BCM");
    let resp = handler.build_response(&[0x3E, 0x00]).unwrap();
    assert_eq!(resp, vec![0x7E, 0x00]);
}

#[test]
fn test_create_handler_gwm() {
    let handler = create_handler(EcuId::Gwm);
    assert_eq!(handler.name(), "GWM");
}

#[test]
fn test_create_handler_ipc() {
    let handler = create_handler(EcuId::Ipc);
    assert_eq!(handler.name(), "IPC");
}

// try_handle tests

#[test]
fn test_try_handle_bcm_vin() {
    let mgr = EcuEmulatorManager::new(vec![EcuId::Bcm]);
    let resp = mgr.try_handle(ecu_addr::BCM_TX, &[0x22, 0xF1, 0x90]).unwrap();
    assert_eq!(resp[0], 0x62);
    let vin = String::from_utf8_lossy(&resp[3..]);
    assert_eq!(vin, "SAJBL4BVXGCY16353");
}

#[test]
fn test_try_handle_bcm_voltage_returns_nrc() {
    // Battery voltage is on GWM, not BCM — emulator returns 0x31
    let mgr = EcuEmulatorManager::new(vec![EcuId::Bcm]);
    let resp = mgr.try_handle(ecu_addr::BCM_TX, &[0x22, 0x40, 0x2A]).unwrap();
    assert_eq!(resp, vec![0x7F, 0x22, 0x31]);
}

#[test]
fn test_try_handle_unknown_txid() {
    let mgr = EcuEmulatorManager::new(vec![EcuId::Bcm]);
    // IMC TX is not emulated
    let resp = mgr.try_handle(ecu_addr::IMC_TX, &[0x22, 0xF1, 0x90]);
    assert!(resp.is_none());
}

#[test]
fn test_try_handle_unknown_did() {
    let mgr = EcuEmulatorManager::new(vec![EcuId::Bcm]);
    let resp = mgr.try_handle(ecu_addr::BCM_TX, &[0x22, 0xFF, 0xFF]).unwrap();
    assert_eq!(resp, vec![0x7F, 0x22, 0x31]); // NRC requestOutOfRange
}

// Every ECU answers every request that is not empty, positively for the
// service or with the negative response that names it.

fn sample_requests() -> Vec<Vec<u8>> {
    let mut requests: Vec<Vec<u8>> = Vec::new();
    for sid in 0..=255u8 {
        requests.push(vec![sid]);
        requests.push(vec![sid, 0x00]);
        requests.push(vec![sid, 0x01, 0x02]);
        requests.push(vec![sid, 0xF1, 0x90]);
        requests.push(vec![sid, 0x01, 0x60, 0x3E, 0x01]);
    }
    requests
}

#[test]
fn emulator_response_shape() {
    for &ecu in EcuId::all() {
        let handler = create_handler(ecu);
        for request in sample_requests() {
            let response = handler.build_response(&request).unwrap();
            let positive = response[0] as u16 == request[0] as u16 + 0x40;
            let negative = response.len() == 3 && response[0] == 0x7F && response[1] == request[0];
            assert!(
                positive || negative,
                "{:?} answered {:02X?} to {:02X?}",
                ecu,
                response,
                request
            );
        }
    }
}

#[test]
fn emulator_ignores_empty_request() {
    assert!(BcmHandler.build_response(&[]).is_none());
    assert!(GwmHandler.build_response(&[]).is_none());
    assert!(IpcHandler.build_response(&[]).is_none());
    let mgr = EcuEmulatorManager::new(vec![EcuId::Bcm]);
    assert!(mgr.try_handle(ecu_addr::BCM_TX, &[]).is_none());
}

#[test]
fn bcm_short_requests_are_refused() {
    // A read, a write or a routine without its identifier is no read
    assert_eq!(BcmHandler.build_response(&[0x22, 0xF1]).unwrap(), vec![0x7F, 0x22, 0x11]);
    assert_eq!(BcmHandler.build_response(&[0x2E, 0x40]).unwrap(), vec![0x7F, 0x2E, 0x11]);
    assert_eq!(BcmHandler.build_response(&[0x31, 0x01, 0x60]).unwrap(), vec![0x7F, 0x31, 0x11]);
    assert_eq!(BcmHandler.build_response(&[0x3E, 0x80]).unwrap(), vec![0x7F, 0x3E, 0x11]);
    assert_eq!(BcmHandler.build_response(&[0x10]).unwrap(), vec![0x7F, 0x10, 0x11]);
}

#[test]
fn bcm_vin_exact_bytes() {
    let resp = BcmHandler.build_response(&[0x22, 0xF1, 0x90]).unwrap();
    let mut expected = vec![0x62, 0xF1, 0x90];
    expected.extend_from_slice(b"SAJBL4BVXGCY16353");
    assert_eq!(resp, expected);
}

#[test]
fn bcm_part_numbers_are_padded_to_24_bytes() {
    let sw = BcmHandler.build_response(&[0x22, 0xF1, 0x88]).unwrap();
    assert_eq!(sw.len(), 3 + 24);
    assert_eq!(&sw[3..17], b"GX73-14C184-AK");
    assert!(sw[17..].iter().all(|&b| b == 0));
    let hw = BcmHandler.build_response(&[0x22, 0xF1, 0x13]).unwrap();
    assert_eq!(hw.len(), 3 + 24);
    assert_eq!(&hw[3..17], b"GX73-14F041-AK");
    assert!(hw[17..].iter().all(|&b| b == 0));
}

#[test]
fn bcm_captured_dids() {
    let table: Vec<(u16, Vec<u8>)> = vec![
        (0x40AB, vec![0x04]),
        (0x40DE, vec![0x01]),
        (0x41DD, vec![0x00]),
        (0xA112, vec![0x1F, 0xFF, 0xFF, 0x1F]),
        (0xC124, vec![0x6C, 0x04, 0x6C, 0x04]),
        (0xC190, vec![0x80, 0x00, 0x7D, 0x6C]),
        (0xD134, vec![0x00]),
        (0xDD01, vec![0x03, 0x5F, 0xB8]),
        (0xDD06, vec![0x67]),
        (0xDE02, vec![0xFF; 8]),
        (0xDE03, vec![0xFF; 8]),
    ];
    for (did, data) in table {
        let hi = (did >> 8) as u8;
        let lo = (did & 0xFF) as u8;
        let mut expected = vec![0x62, hi, lo];
        expected.extend_from_slice(&data);
        assert_eq!(BcmHandler.build_response(&[0x22, hi, lo]).unwrap(), expected);
    }
}

#[test]
fn ecu_id_round_trips_through_lowercase_name() {
    for &ecu in EcuId::all() {
        assert_eq!(EcuId::from_str(ecu.key()), Some(ecu));
        assert_eq!(EcuId::from_str(&ecu.name().to_lowercase()), Some(ecu));
        assert_eq!(EcuId::from_str(ecu.name()), Some(ecu));
    }
    assert_eq!(EcuId::Bcm.key(), "bcm");
    assert_eq!(EcuId::Gwm.key(), "gwm");
    assert_eq!(EcuId::Ipc.key(), "ipc");
}

#[test]
fn ecu_id_from_str_rejects_near_misses() {
    assert_eq!(EcuId::from_str(""), None);
    assert_eq!(EcuId::from_str("bc"), None);
    assert_eq!(EcuId::from_str("bcmm"), None);
    assert_eq!(EcuId::from_str("imc"), None);
    assert_eq!(EcuId::from_str(" bcm"), None);
    assert_eq!(EcuId::from_str("BcM"), Some(EcuId::Bcm));
    assert_eq!(EcuId::from_str("\u{42}\u{43}\u{2133}"), None);
}

#[test]
fn try_handle_routes_to_first_listener() {
    let mgr = EcuEmulatorManager::new(vec![EcuId::Gwm, EcuId::Bcm, EcuId::Ipc]);
    assert_eq!(mgr.emulated_ecus(), &[EcuId::Gwm, EcuId::Bcm, EcuId::Ipc]);
    assert!(mgr.handles(ecu_addr::GWM_TX));
    assert!(mgr.handles(ecu_addr::BCM_TX));
    assert!(!mgr.handles(ecu_addr::IMC_TX));
    // The gateway has no table of identifiers
    assert_eq!(
        mgr.try_handle(ecu_addr::GWM_TX, &[0x22, 0xF1, 0x90]).unwrap(),
        vec![0x7F, 0x22, 0x31]
    );
    assert_eq!(
        mgr.try_handle(ecu_addr::BCM_TX, &[0x22, 0x40, 0xAB]).unwrap(),
        vec![0x62, 0x40, 0xAB, 0x04]
    );
    assert_eq!(
        mgr.try_handle(ecu_addr::IPC_TX, &[0x27, 0x11]).unwrap(),
        vec![0x67, 0x11, 0x00, 0x00, 0x00]
    );
}

#[test]
fn broadcast_frames_are_raw_can() {
    assert_eq!(BROADCAST_COUNT, 17);
    for index in 0..BROADCAST_COUNT {
        let (can_id, data) = BROADCAST_MSGS[index];
        let msg = broadcast_frame(index);
        assert_eq!(msg.protocol_id, PROTOCOL_CAN);
        assert_eq!(msg.tx_flags, 0);
        assert_eq!(msg.data_size, 12);
        assert_eq!(msg.can_id(), can_id);
        assert_eq!(msg.payload(), &data);
    }
    // The heartbeats of the network management are in the table
    for nm in [0x400u32, 0x407, 0x460] {
        assert!(BROADCAST_MSGS.iter().any(|(id, _)| *id == nm));
    }
}

// The emulator that listens on a channel of its own

#[test]
fn test_bcm_emulator_responds_tester_present() {
    let request = vec![0x3E, 0x00];
    let response = BcmHandler.build_response(&request).unwrap();
    assert_eq!(response, vec![0x7E, 0x00]);
}

#[test]
fn test_bcm_emulator_responds_diag_session() {
    let request = vec![0x10, 0x01];
    let response = BcmHandler.build_response(&request).unwrap();
    assert_eq!(response, vec![0x50, 0x01, 0x00, 0x19, 0x01, 0xF4]);
}

#[test]
fn test_bcm_emulator_responds_diag_session_extended() {
    let request = vec![0x10, 0x03];
    let response = BcmHandler.build_response(&request).unwrap();
    assert_eq!(response, vec![0x50, 0x03, 0x00, 0x19, 0x01, 0xF4]);
}

#[test]
fn test_bcm_emulator_responds_security_access() {
    let request = vec![0x27, 0x11];
    let response = BcmHandler.build_response(&request).unwrap();
    assert_eq!(response, vec![0x67, 0x11, 0x00, 0x00, 0x00]);
}

#[test]
fn test_bcm_emulator_unknown_did_returns_nrc() {
    let request = vec![0x22, 0xFF, 0xFF];
    let response = BcmHandler.build_response(&request).unwrap();
    assert_eq!(response, vec![0x7F, 0x22, 0x31]);
}

#[test]
fn test_bcm_emulator_unknown_service_returns_nrc() {
    let request = vec![0x99];
    let response = BcmHandler.build_response(&request).unwrap();
    assert_eq!(response, vec![0x7F, 0x99, 0x11]);
}

#[test]
fn emulator_answers_frames_from_the_bus() {
    let mgr = EcuEmulatorManager::new(vec![EcuId::Bcm, EcuId::Ipc]);
    let request = PassThruMsg::new_iso15765(ecu_addr::BCM_TX, &[0x22, 0xF1, 0x8C]);
    let reply = mgr.answer(&request).unwrap();
    assert_eq!(reply.protocol_id, PROTOCOL_ISO15765);
    assert_eq!(reply.tx_flags, ISO15765_FRAME_PAD);
    assert_eq!(reply.can_id(), ecu_addr::BCM_RX);
    let mut expected = vec![0x62, 0xF1, 0x8C];
    expected.extend_from_slice(b"1979149808");
    assert_eq!(reply.payload(), &expected[..]);

    let request = PassThruMsg::new_iso15765(ecu_addr::IPC_TX, &[0x3E, 0x00]);
    let reply = mgr.answer(&request).unwrap();
    assert_eq!(reply.can_id(), ecu_addr::IPC_RX);
    assert_eq!(reply.payload(), &[0x7E, 0x00]);

    // Frames for other ECUs and frames without a payload get no answer
    assert!(mgr.answer(&PassThruMsg::new_iso15765(ecu_addr::GWM_TX, &[0x3E, 0x00])).is_none());
    assert!(mgr.answer(&PassThruMsg::new_iso15765(ecu_addr::IMC_TX, &[0x3E, 0x00])).is_none());
    assert!(mgr.answer(&PassThruMsg::new_iso15765(ecu_addr::BCM_TX, &[])).is_none());
    assert!(mgr.answer(&PassThruMsg::default()).is_none());
}

#[test]
fn every_ecu_gives_the_whole_table() {
    for &ecu in EcuId::all() {
        let handler = create_handler(ecu);
        assert_eq!(handler.build_response(&[0x3E, 0x00]).unwrap(), vec![0x7E, 0x00]);
        assert_eq!(
            handler.build_response(&[0x10, 0x02]).unwrap(),
            vec![0x50, 0x02, 0x00, 0x19, 0x01, 0xF4]
        );
        assert_eq!(handler.build_response(&[0x11, 0x03]).unwrap(), vec![0x51, 0x03]);
        assert_eq!(
            handler.build_response(&[0x27, 0x11]).unwrap(),
            vec![0x67, 0x11, 0x00, 0x00, 0x00]
        );
        assert_eq!(handler.build_response(&[0x28, 0x01, 0x01]).unwrap(), vec![0x68, 0x01]);
        assert_eq!(
            handler.build_response(&[0x2E, 0x40, 0x30, 0x01]).unwrap(),
            vec![0x6E, 0x40, 0x30]
        );
        assert_eq!(
            handler.build_response(&[0x31, 0x01, 0x60, 0x3E, 0x01]).unwrap(),
            vec![0x71, 0x01, 0x60, 0x3E]
        );
        assert_eq!(
            handler.build_response(&[0x22, 0x12, 0x34]).unwrap(),
            vec![0x7F, 0x22, 0x31]
        );
        assert_eq!(handler.build_response(&[0x85, 0x02]).unwrap(), vec![0x7F, 0x85, 0x11]);
    }
    // Only the body control module holds identifiers
    assert_eq!(GwmHandler.build_response(&[0x22, 0xF1, 0x8C]).unwrap(), vec![0x7F, 0x22, 0x31]);
    assert_eq!(IpcHandler.build_response(&[0x22, 0x40, 0xAB]).unwrap(), vec![0x7F, 0x22, 0x31]);
    assert_eq!(respond(EcuId::Bcm, &[0x22, 0x40, 0xAB]).unwrap(), vec![0x62, 0x40, 0xAB, 0x04]);
}
