use uds_host::uds::error::{NegativeResponseCode, UdsError};

#[test]
fn test_nrc_from_byte_all_codes() {
    assert_eq!(
        NegativeResponseCode::from_byte(0x10),
        NegativeResponseCode::GeneralReject
    );
    assert_eq!(
        NegativeResponseCode::from_byte(0x11),
        NegativeResponseCode::ServiceNotSupported
    );
    assert_eq!(
        NegativeResponseCode::from_byte(0x12),
        NegativeResponseCode::SubFunctionNotSupported
    );
    assert_eq!(
        NegativeResponseCode::from_byte(0x13),
        NegativeResponseCode::IncorrectMessageLengthOrInvalidFormat
    );
    assert_eq!(
        NegativeResponseCode::from_byte(0x14),
        NegativeResponseCode::ResponseTooLong
    );
    assert_eq!(
        NegativeResponseCode::from_byte(0x21),
        NegativeResponseCode::BusyRepeatRequest
    );
    assert_eq!(
        NegativeResponseCode::from_byte(0x22),
        NegativeResponseCode::ConditionsNotCorrect
    );
    assert_eq!(
        NegativeResponseCode::from_byte(0x24),
        NegativeResponseCode::RequestSequenceError
    );
    assert_eq!(
        NegativeResponseCode::from_byte(0x31),
        NegativeResponseCode::RequestOutOfRange
    );
    assert_eq!(
        NegativeResponseCode::from_byte(0x33),
        NegativeResponseCode::SecurityAccessDenied
    );
    assert_eq!(
        NegativeResponseCode::from_byte(0x35),
        NegativeResponseCode::InvalidKey
    );
    assert_eq!(
        NegativeResponseCode::from_byte(0x36),
        NegativeResponseCode::ExceededNumberOfAttempts
    );
    assert_eq!(
        NegativeResponseCode::from_byte(0x37),
        NegativeResponseCode::RequiredTimeDelayNotExpired
    );
    assert_eq!(
        NegativeResponseCode::from_byte(0x78),
        NegativeResponseCode::RequestCorrectlyReceivedResponsePending
    );
    assert_eq!(
        NegativeResponseCode::from_byte(0x7E),
        NegativeResponseCode::SubFunctionNotSupportedInActiveSession
    );
    assert_eq!(
        NegativeResponseCode::from_byte(0x7F),
        NegativeResponseCode::ServiceNotSupportedInActiveSession
    );
}

#[test]
fn test_nrc_display_readable() {
    assert_eq!(
        NegativeResponseCode::GeneralReject.to_string(),
        "General reject (0x10)"
    );
    assert_eq!(
        NegativeResponseCode::SecurityAccessDenied.to_string(),
        "Security access denied (0x33)"
    );
    assert_eq!(
        NegativeResponseCode::InvalidKey.to_string(),
        "Invalid key (0x35)"
    );
    assert_eq!(
        NegativeResponseCode::RequestCorrectlyReceivedResponsePending.to_string(),
        "Request correctly received - response pending (0x78)"
    );
}

#[test]
fn test_nrc_unknown_code() {
    let nrc = NegativeResponseCode::from_byte(0xAA);
    assert_eq!(nrc, NegativeResponseCode::Unknown(0xAA));
    assert_eq!(nrc.to_string(), "Unknown NRC (0xAA)");
    assert_eq!(nrc.to_byte(), 0xAA);
}

#[test]
fn test_nrc_roundtrip() {
    let codes: Vec<u8> = vec![
        0x10, 0x11, 0x12, 0x13, 0x14, 0x21, 0x22, 0x24, 0x25, 0x26, 0x31, 0x33, 0x34, 0x35,
        0x36, 0x37, 0x38, 0x39, 0x3A, 0x70, 0x71, 0x72, 0x73, 0x78, 0x7E, 0x7F,
    ];
    for code in codes {
        let nrc = NegativeResponseCode::from_byte(code);
        assert_eq!(nrc.to_byte(), code, "Roundtrip failed for 0x{:02X}", code);
    }
}

#[test]
fn test_nrc_is_pending() {
    assert!(NegativeResponseCode::RequestCorrectlyReceivedResponsePending.is_pending());
    assert!(!NegativeResponseCode::GeneralReject.is_pending());
    assert!(!NegativeResponseCode::SecurityAccessDenied.is_pending());
}

#[test]
fn test_uds_error_display() {
    let err = UdsError::NegativeResponse {
        service_id: 0x22,
        nrc: NegativeResponseCode::RequestOutOfRange,
    };
    assert_eq!(
        err.to_string(),
        "Negative response for service 0x22: Request out of range (0x31)"
    );

    assert_eq!(UdsError::Timeout.to_string(), "Response timeout");
    assert_eq!(UdsError::NotConnected.to_string(), "Not connected to ECU");
}

#[test]
fn nrc_round_trip_every_byte() {
    for byte in 0..=255u8 {
        assert_eq!(NegativeResponseCode::from_byte(byte).to_byte(), byte);
    }
}

#[test]
fn nrc_named_codes_are_not_unknown() {
    let named: [u8; 26] = [
        0x10, 0x11, 0x12, 0x13, 0x14, 0x21, 0x22, 0x24, 0x25, 0x26, 0x31, 0x33, 0x34, 0x35,
        0x36, 0x37, 0x38, 0x39, 0x3A, 0x70, 0x71, 0x72, 0x73, 0x78, 0x7E, 0x7F,
    ];
    for byte in 0..=255u8 {
        let nrc = NegativeResponseCode::from_byte(byte);
        assert_eq!(
            matches!(nrc, NegativeResponseCode::Unknown(_)),
            !named.contains(&byte)
        );
    }
}

#[test]
fn nrc_unknown_display_uses_two_hex_digits() {
    assert_eq!(
        NegativeResponseCode::from_byte(0xBB).to_string(),
        "Unknown NRC (0xBB)"
    );
    assert_eq!(
        NegativeResponseCode::from_byte(0x05).to_string(),
        "Unknown NRC (0x05)"
    );
}

#[test]
fn nrc_busy_is_told_apart() {
    assert!(NegativeResponseCode::BusyRepeatRequest.is_busy());
    assert!(!NegativeResponseCode::RequestCorrectlyReceivedResponsePending.is_busy());
    assert!(!NegativeResponseCode::Unknown(0x21).is_busy());
}

#[test]
fn uds_error_texts_with_reason() {
    assert_eq!(
        UdsError::InvalidResponse("too short".to_string()).to_string(),
        "Invalid response: too short"
    );
    assert_eq!(
        UdsError::TransportError("adapter gone".to_string()).to_string(),
        "Transport error: adapter gone"
    );
    assert_eq!(
        UdsError::SecurityError("locked".to_string()).to_string(),
        "Security error: locked"
    );
}
