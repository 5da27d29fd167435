use vstd::prelude::*;
use vstd::string::*;
use crate::text::{hex_u8, push_hex_u8};

verus! {

/// Negative response codes of ISO 14229: the reason byte of a `7F sid nrc`
/// response. A byte outside the code set is kept as `Unknown`.
#[derive(Debug, Clone, Copy, PartialEq, Eq, Structural)]
pub enum NegativeResponseCode {
    GeneralReject,
    ServiceNotSupported,
    SubFunctionNotSupported,
    IncorrectMessageLengthOrInvalidFormat,
    ResponseTooLong,
    BusyRepeatRequest,
    ConditionsNotCorrect,
    RequestSequenceError,
    NoResponseFromSubnetComponent,
    FailurePreventsExecutionOfRequestedAction,
    RequestOutOfRange,
    SecurityAccessDenied,
    AuthenticationRequired,
    InvalidKey,
    ExceededNumberOfAttempts,
    RequiredTimeDelayNotExpired,
    SecureDataTransmissionRequired,
    SecureDataTransmissionNotAllowed,
    SecureDataVerificationFailed,
    UploadDownloadNotAccepted,
    TransferDataSuspended,
    GeneralProgrammingFailure,
    WrongBlockSequenceCounter,
    RequestCorrectlyReceivedResponsePending,
    SubFunctionNotSupportedInActiveSession,
    ServiceNotSupportedInActiveSession,
    Unknown(u8),
}

/// Whether a byte belongs to the code set.
pub open spec fn is_named_code(byte: u8) -> bool {
    byte == 0x10
    || byte == 0x11
    || byte == 0x12
    || byte == 0x13
    || byte == 0x14
    || byte == 0x21
    || byte == 0x22
    || byte == 0x24
    || byte == 0x25
    || byte == 0x26
    || byte == 0x31
    || byte == 0x33
    || byte == 0x34
    || byte == 0x35
    || byte == 0x36
    || byte == 0x37
    || byte == 0x38
    || byte == 0x39
    || byte == 0x3A
    || byte == 0x70
    || byte == 0x71
    || byte == 0x72
    || byte == 0x73
    || byte == 0x78
    || byte == 0x7E
    || byte == 0x7F
}

/// The code that a byte stands for.
pub open spec fn nrc_of(byte: u8) -> NegativeResponseCode {
    match byte {
        0x10 => NegativeResponseCode::GeneralReject,
        0x11 => NegativeResponseCode::ServiceNotSupported,
        0x12 => NegativeResponseCode::SubFunctionNotSupported,
        0x13 => NegativeResponseCode::IncorrectMessageLengthOrInvalidFormat,
        0x14 => NegativeResponseCode::ResponseTooLong,
        0x21 => NegativeResponseCode::BusyRepeatRequest,
        0x22 => NegativeResponseCode::ConditionsNotCorrect,
        0x24 => NegativeResponseCode::RequestSequenceError,
        0x25 => NegativeResponseCode::NoResponseFromSubnetComponent,
        0x26 => NegativeResponseCode::FailurePreventsExecutionOfRequestedAction,
        0x31 => NegativeResponseCode::RequestOutOfRange,
        0x33 => NegativeResponseCode::SecurityAccessDenied,
        0x34 => NegativeResponseCode::AuthenticationRequired,
        0x35 => NegativeResponseCode::InvalidKey,
        0x36 => NegativeResponseCode::ExceededNumberOfAttempts,
        0x37 => NegativeResponseCode::RequiredTimeDelayNotExpired,
        0x38 => NegativeResponseCode::SecureDataTransmissionRequired,
        0x39 => NegativeResponseCode::SecureDataTransmissionNotAllowed,
        0x3A => NegativeResponseCode::SecureDataVerificationFailed,
        0x70 => NegativeResponseCode::UploadDownloadNotAccepted,
        0x71 => NegativeResponseCode::TransferDataSuspended,
        0x72 => NegativeResponseCode::GeneralProgrammingFailure,
        0x73 => NegativeResponseCode::WrongBlockSequenceCounter,
        0x78 => NegativeResponseCode::RequestCorrectlyReceivedResponsePending,
        0x7E => NegativeResponseCode::SubFunctionNotSupportedInActiveSession,
        0x7F => NegativeResponseCode::ServiceNotSupportedInActiveSession,
        other => NegativeResponseCode::Unknown(other),
    }
}

impl NegativeResponseCode {
    /// The byte of this code.
    pub open spec fn spec_byte(self) -> u8 {
        match self {
            NegativeResponseCode::GeneralReject => 0x10,
            NegativeResponseCode::ServiceNotSupported => 0x11,
            NegativeResponseCode::SubFunctionNotSupported => 0x12,
            NegativeResponseCode::IncorrectMessageLengthOrInvalidFormat => 0x13,
            NegativeResponseCode::ResponseTooLong => 0x14,
            NegativeResponseCode::BusyRepeatRequest => 0x21,
            NegativeResponseCode::ConditionsNotCorrect => 0x22,
            NegativeResponseCode::RequestSequenceError => 0x24,
            NegativeResponseCode::NoResponseFromSubnetComponent => 0x25,
            NegativeResponseCode::FailurePreventsExecutionOfRequestedAction => 0x26,
            NegativeResponseCode::RequestOutOfRange => 0x31,
            NegativeResponseCode::SecurityAccessDenied => 0x33,
            NegativeResponseCode::AuthenticationRequired => 0x34,
            NegativeResponseCode::InvalidKey => 0x35,
            NegativeResponseCode::ExceededNumberOfAttempts => 0x36,
            NegativeResponseCode::RequiredTimeDelayNotExpired => 0x37,
            NegativeResponseCode::SecureDataTransmissionRequired => 0x38,
            NegativeResponseCode::SecureDataTransmissionNotAllowed => 0x39,
            NegativeResponseCode::SecureDataVerificationFailed => 0x3A,
            NegativeResponseCode::UploadDownloadNotAccepted => 0x70,
            NegativeResponseCode::TransferDataSuspended => 0x71,
            NegativeResponseCode::GeneralProgrammingFailure => 0x72,
            NegativeResponseCode::WrongBlockSequenceCounter => 0x73,
            NegativeResponseCode::RequestCorrectlyReceivedResponsePending => 0x78,
            NegativeResponseCode::SubFunctionNotSupportedInActiveSession => 0x7E,
            NegativeResponseCode::ServiceNotSupportedInActiveSession => 0x7F,
            NegativeResponseCode::Unknown(code) => code,
        }
    }

    /// The name of this code, without its number.
    pub open spec fn spec_name(self) -> Seq<char> {
        match self {
            NegativeResponseCode::GeneralReject => "General reject"@,
            NegativeResponseCode::ServiceNotSupported => "Service not supported"@,
            NegativeResponseCode::SubFunctionNotSupported => "Sub-function not supported"@,
            NegativeResponseCode::IncorrectMessageLengthOrInvalidFormat => "Incorrect message length or invalid format"@,
            NegativeResponseCode::ResponseTooLong => "Response too long"@,
            NegativeResponseCode::BusyRepeatRequest => "Busy - repeat request"@,
            NegativeResponseCode::ConditionsNotCorrect => "Conditions not correct"@,
            NegativeResponseCode::RequestSequenceError => "Request sequence error"@,
            NegativeResponseCode::NoResponseFromSubnetComponent => "No response from subnet component"@,
            NegativeResponseCode::FailurePreventsExecutionOfRequestedAction => "Failure prevents execution of requested action"@,
            NegativeResponseCode::RequestOutOfRange => "Request out of range"@,
            NegativeResponseCode::SecurityAccessDenied => "Security access denied"@,
            NegativeResponseCode::AuthenticationRequired => "Authentication required"@,
            NegativeResponseCode::InvalidKey => "Invalid key"@,
            NegativeResponseCode::ExceededNumberOfAttempts => "Exceeded number of attempts"@,
            NegativeResponseCode::RequiredTimeDelayNotExpired => "Required time delay not expired"@,
            NegativeResponseCode::SecureDataTransmissionRequired => "Secure data transmission required"@,
            NegativeResponseCode::SecureDataTransmissionNotAllowed => "Secure data transmission not allowed"@,
            NegativeResponseCode::SecureDataVerificationFailed => "Secure data verification failed"@,
            NegativeResponseCode::UploadDownloadNotAccepted => "Upload/download not accepted"@,
            NegativeResponseCode::TransferDataSuspended => "Transfer data suspended"@,
            NegativeResponseCode::GeneralProgrammingFailure => "General programming failure"@,
            NegativeResponseCode::WrongBlockSequenceCounter => "Wrong block sequence counter"@,
            NegativeResponseCode::RequestCorrectlyReceivedResponsePending => "Request correctly received - response pending"@,
            NegativeResponseCode::SubFunctionNotSupportedInActiveSession => "Sub-function not supported in active session"@,
            NegativeResponseCode::ServiceNotSupportedInActiveSession => "Service not supported in active session"@,
            NegativeResponseCode::Unknown(_) => "Unknown NRC"@,
        }
    }

    /// The readable form: the name, then the byte in parentheses as
    /// `0x` and two hexadecimal digits.
    pub open spec fn spec_text(self) -> Seq<char> {
        self.spec_name() + " (0x"@ + hex_u8(self.spec_byte()) + ")"@
    }

    /// The code that `byte` stands for; a byte outside the code set becomes
    /// `Unknown` and keeps its value.
    pub fn from_byte(byte: u8) -> (nrc: Self)
        ensures
            nrc == nrc_of(byte),
            nrc.spec_byte() == byte,
            nrc is Unknown <==> !is_named_code(byte),
    {
        match byte {
            0x10 => NegativeResponseCode::GeneralReject,
            0x11 => NegativeResponseCode::ServiceNotSupported,
            0x12 => NegativeResponseCode::SubFunctionNotSupported,
            0x13 => NegativeResponseCode::IncorrectMessageLengthOrInvalidFormat,
            0x14 => NegativeResponseCode::ResponseTooLong,
            0x21 => NegativeResponseCode::BusyRepeatRequest,
            0x22 => NegativeResponseCode::ConditionsNotCorrect,
            0x24 => NegativeResponseCode::RequestSequenceError,
            0x25 => NegativeResponseCode::NoResponseFromSubnetComponent,
            0x26 => NegativeResponseCode::FailurePreventsExecutionOfRequestedAction,
            0x31 => NegativeResponseCode::RequestOutOfRange,
            0x33 => NegativeResponseCode::SecurityAccessDenied,
            0x34 => NegativeResponseCode::AuthenticationRequired,
            0x35 => NegativeResponseCode::InvalidKey,
            0x36 => NegativeResponseCode::ExceededNumberOfAttempts,
            0x37 => NegativeResponseCode::RequiredTimeDelayNotExpired,
            0x38 => NegativeResponseCode::SecureDataTransmissionRequired,
            0x39 => NegativeResponseCode::SecureDataTransmissionNotAllowed,
            0x3A => NegativeResponseCode::SecureDataVerificationFailed,
            0x70 => NegativeResponseCode::UploadDownloadNotAccepted,
            0x71 => NegativeResponseCode::TransferDataSuspended,
            0x72 => NegativeResponseCode::GeneralProgrammingFailure,
            0x73 => NegativeResponseCode::WrongBlockSequenceCounter,
            0x78 => NegativeResponseCode::RequestCorrectlyReceivedResponsePending,
            0x7E => NegativeResponseCode::SubFunctionNotSupportedInActiveSession,
            0x7F => NegativeResponseCode::ServiceNotSupportedInActiveSession,
            other => NegativeResponseCode::Unknown(other),
        }
    }

    /// The byte of this code.
    pub fn to_byte(&self) -> (byte: u8)
        ensures
            byte == self.spec_byte(),
    {
        match self {
            NegativeResponseCode::GeneralReject => 0x10,
            NegativeResponseCode::ServiceNotSupported => 0x11,
            NegativeResponseCode::SubFunctionNotSupported => 0x12,
            NegativeResponseCode::IncorrectMessageLengthOrInvalidFormat => 0x13,
            NegativeResponseCode::ResponseTooLong => 0x14,
            NegativeResponseCode::BusyRepeatRequest => 0x21,
            NegativeResponseCode::ConditionsNotCorrect => 0x22,
            NegativeResponseCode::RequestSequenceError => 0x24,
            NegativeResponseCode::NoResponseFromSubnetComponent => 0x25,
            NegativeResponseCode::FailurePreventsExecutionOfRequestedAction => 0x26,
            NegativeResponseCode::RequestOutOfRange => 0x31,
            NegativeResponseCode::SecurityAccessDenied => 0x33,
            NegativeResponseCode::AuthenticationRequired => 0x34,
            NegativeResponseCode::InvalidKey => 0x35,
            NegativeResponseCode::ExceededNumberOfAttempts => 0x36,
            NegativeResponseCode::RequiredTimeDelayNotExpired => 0x37,
            NegativeResponseCode::SecureDataTransmissionRequired => 0x38,
            NegativeResponseCode::SecureDataTransmissionNotAllowed => 0x39,
            NegativeResponseCode::SecureDataVerificationFailed => 0x3A,
            NegativeResponseCode::UploadDownloadNotAccepted => 0x70,
            NegativeResponseCode::TransferDataSuspended => 0x71,
            NegativeResponseCode::GeneralProgrammingFailure => 0x72,
            NegativeResponseCode::WrongBlockSequenceCounter => 0x73,
            NegativeResponseCode::RequestCorrectlyReceivedResponsePending => 0x78,
            NegativeResponseCode::SubFunctionNotSupportedInActiveSession => 0x7E,
            NegativeResponseCode::ServiceNotSupportedInActiveSession => 0x7F,
            NegativeResponseCode::Unknown(code) => *code,
        }
    }

    /// Whether this code announces that the response is still to come.
    pub fn is_pending(&self) -> (pending: bool)
        ensures
            pending == (*self == NegativeResponseCode::RequestCorrectlyReceivedResponsePending),
    {
        match self {
            NegativeResponseCode::RequestCorrectlyReceivedResponsePending => true,
            _ => false,
        }
    }

    /// Whether this code asks for the request to be repeated later.
    pub fn is_busy(&self) -> (busy: bool)
        ensures
            busy == (*self == NegativeResponseCode::BusyRepeatRequest),
    {
        match self {
            NegativeResponseCode::BusyRepeatRequest => true,
            _ => false,
        }
    }

    fn name(&self) -> (s: &'static str)
        ensures
            s@ == self.spec_name(),
    {
        match self {
            NegativeResponseCode::GeneralReject => "General reject",
            NegativeResponseCode::ServiceNotSupported => "Service not supported",
            NegativeResponseCode::SubFunctionNotSupported => "Sub-function not supported",
            NegativeResponseCode::IncorrectMessageLengthOrInvalidFormat => "Incorrect message length or invalid format",
            NegativeResponseCode::ResponseTooLong => "Response too long",
            NegativeResponseCode::BusyRepeatRequest => "Busy - repeat request",
            NegativeResponseCode::ConditionsNotCorrect => "Conditions not correct",
            NegativeResponseCode::RequestSequenceError => "Request sequence error",
            NegativeResponseCode::NoResponseFromSubnetComponent => "No response from subnet component",
            NegativeResponseCode::FailurePreventsExecutionOfRequestedAction => "Failure prevents execution of requested action",
            NegativeResponseCode::RequestOutOfRange => "Request out of range",
            NegativeResponseCode::SecurityAccessDenied => "Security access denied",
            NegativeResponseCode::AuthenticationRequired => "Authentication required",
            NegativeResponseCode::InvalidKey => "Invalid key",
            NegativeResponseCode::ExceededNumberOfAttempts => "Exceeded number of attempts",
            NegativeResponseCode::RequiredTimeDelayNotExpired => "Required time delay not expired",
            NegativeResponseCode::SecureDataTransmissionRequired => "Secure data transmission required",
            NegativeResponseCode::SecureDataTransmissionNotAllowed => "Secure data transmission not allowed",
            NegativeResponseCode::SecureDataVerificationFailed => "Secure data verification failed",
            NegativeResponseCode::UploadDownloadNotAccepted => "Upload/download not accepted",
            NegativeResponseCode::TransferDataSuspended => "Transfer data suspended",
            NegativeResponseCode::GeneralProgrammingFailure => "General programming failure",
            NegativeResponseCode::WrongBlockSequenceCounter => "Wrong block sequence counter",
            NegativeResponseCode::RequestCorrectlyReceivedResponsePending => "Request correctly received - response pending",
            NegativeResponseCode::SubFunctionNotSupportedInActiveSession => "Sub-function not supported in active session",
            NegativeResponseCode::ServiceNotSupportedInActiveSession => "Service not supported in active session",
            NegativeResponseCode::Unknown(_) => "Unknown NRC",
        }
    }

    /// The readable form of this code.
    pub fn to_string(&self) -> (s: String)
        ensures
            s@ == self.spec_text(),
    {
        let mut s = String::from_str(self.name());
        s.append(" (0x");
        push_hex_u8(&mut s, self.to_byte());
        s.append(")");
        s
    }
}

/// A byte turned into a code and back is the same byte.
pub proof fn lemma_nrc_byte_round_trip(byte: u8)
    ensures
        nrc_of(byte).spec_byte() == byte,
{
}

/// A code turned into its byte and back is the same code, unless it is an
/// `Unknown` that holds a byte of the code set.
pub proof fn lemma_nrc_code_round_trip(nrc: NegativeResponseCode)
    requires
        nrc is Unknown ==> !is_named_code(nrc->Unknown_0),
    ensures
        nrc_of(nrc.spec_byte()) == nrc,
{
}

/// What a request can end in besides its positive response.
#[derive(Debug, Clone)]
pub enum UdsError {
    /// The ECU refused the service `service_id` for the reason `nrc`.
    NegativeResponse { service_id: u8, nrc: NegativeResponseCode },
    /// No response came before the deadline.
    Timeout,
    /// A response came that cannot be read.
    InvalidResponse(String),
    /// The channel failed.
    TransportError(String),
    /// There is no connection.
    NotConnected,
    /// The security access failed.
    SecurityError(String),
}

impl UdsError {
    /// The readable form of this error.
    pub open spec fn spec_text(self) -> Seq<char> {
        match self {
            UdsError::NegativeResponse { service_id, nrc } => "Negative response for service 0x"@
                + hex_u8(service_id) + ": "@ + nrc.spec_text(),
            UdsError::Timeout => "Response timeout"@,
            UdsError::InvalidResponse(msg) => "Invalid response: "@ + msg@,
            UdsError::TransportError(msg) => "Transport error: "@ + msg@,
            UdsError::NotConnected => "Not connected to ECU"@,
            UdsError::SecurityError(msg) => "Security error: "@ + msg@,
        }
    }

    /// The readable form of this error.
    pub fn to_string(&self) -> (s: String)
        ensures
            s@ == self.spec_text(),
    {
        match self {
            UdsError::NegativeResponse { service_id, nrc } => {
                let mut s = String::from_str("Negative response for service 0x");
                push_hex_u8(&mut s, *service_id);
                s.append(": ");
                s.append(nrc.to_string().as_str());
                s
            },
            UdsError::Timeout => String::from_str("Response timeout"),
            UdsError::InvalidResponse(msg) => String::from_str("Invalid response: ").concat(
                msg.as_str(),
            ),
            UdsError::TransportError(msg) => String::from_str("Transport error: ").concat(
                msg.as_str(),
            ),
            UdsError::NotConnected => String::from_str("Not connected to ECU"),
            UdsError::SecurityError(msg) => String::from_str("Security error: ").concat(
                msg.as_str(),
            ),
        }
    }
}

} // verus!
