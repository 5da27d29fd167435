use vstd::prelude::*;
use vstd::string::*;
use vstd::slice::*;
use crate::j2534::Channel;
use crate::j2534::types::{PassThruMsg, MAX_DATA_SIZE, MAX_PAYLOAD_SIZE};
use crate::text::{hex_bytes, hex_string, hex_u8, push_hex_u8};
use crate::uds::error::{nrc_of, NegativeResponseCode, UdsError};

verus! {

/// What a log record speaks of.
#[derive(Debug, Clone, Copy, PartialEq, Eq, Structural)]
pub enum LogDirection {
    Tx,
    Rx,
    Error,
    Pending,
}

impl LogDirection {
    /// The tag of this direction in a printed log.
    pub open spec fn spec_tag(self) -> Seq<char> {
        match self {
            LogDirection::Tx => "TX"@,
            LogDirection::Rx => "RX"@,
            LogDirection::Error => "ERR"@,
            LogDirection::Pending => "..."@,
        }
    }

    /// The tag of this direction in a printed log.
    pub fn to_string(&self) -> (s: String)
        ensures
            s@ == self.spec_tag(),
    {
        match self {
            LogDirection::Tx => String::from_str("TX"),
            LogDirection::Rx => String::from_str("RX"),
            LogDirection::Error => String::from_str("ERR"),
            LogDirection::Pending => String::from_str("..."),
        }
    }
}

/// One record of the communication log.
#[derive(Debug, Clone)]
pub struct LogEntry {
    pub direction: LogDirection,
    /// The bytes, as hexadecimal numerals with spaces between them.
    pub data_hex: String,
    /// The wall-clock time at which the record was made.
    pub timestamp: String,
    pub description: String,
}

/// Where log records go. The library hands each record over and assumes
/// nothing of what becomes of it.
pub trait LogSink {
    fn emit(&self, entry: LogEntry);
}

/// The sink that a client keeps.
pub type LogCallback = Box<dyn LogSink>;

/// A sink that drops every record.
pub struct NoLog;

impl LogSink for NoLog {
    fn emit(&self, entry: LogEntry) {
    }
}

/// `chrono::Local::now`, written by `DateTime::format` as hours, minutes,
/// seconds and milliseconds. The text depends on the clock and on the time
/// zone of the machine, so nothing is claimed of it. The call panics only
/// on a state of the machine: a system clock that stands before 1970, or a
/// platform that finds no offset for its zone (Unix takes a zone that it
/// cannot read for UTC and does not panic).
#[verifier::external_body]
fn timestamp_now() -> String {
    chrono::Local::now().format("%H:%M:%S%.3f").to_string()
}

/// `std::time::Instant::now`: a reading of the monotonic clock. Nothing is
/// claimed of the reading.
pub assume_specification[ std::time::Instant::now ]() -> std::time::Instant;

/// `std::time::Instant::elapsed`: the time since the reading was taken.
/// Nothing is claimed of the duration.
pub assume_specification[ std::time::Instant::elapsed ](
    start: &std::time::Instant,
) -> std::time::Duration;

/// `std::time::Duration::as_millis`: the whole milliseconds in a duration.
/// A duration is opaque here, so nothing is claimed of the number.
pub assume_specification[ std::time::Duration::as_millis ](
    duration: &std::time::Duration,
) -> u128;

/// `std::time::Instant`, a reading of the monotonic clock. The library
/// carries the reading and sees nothing inside it.
#[verifier::external_type_specification]
#[verifier::external_body]
pub struct ExInstant(std::time::Instant);

/// A record of `data` under `direction`, stamped with the current time.
pub fn log_entry(direction: LogDirection, data: &[u8], description: &str) -> (entry: LogEntry)
    ensures
        entry.direction == direction,
        entry.data_hex@ == hex_bytes(data@),
        entry.description@ == description@,
{
    LogEntry {
        direction,
        data_hex: hex_string(data),
        timestamp: timestamp_now(),
        description: String::from_str(description),
    }
}

/// The name of a service, or `Service 0x` and its identifier.
pub open spec fn service_name(service_id: u8) -> Seq<char> {
    match service_id {
        0x10 => "DiagnosticSessionControl"@,
        0x11 => "ECUReset"@,
        0x22 => "ReadDataByIdentifier"@,
        0x27 => "SecurityAccess"@,
        0x2E => "WriteDataByIdentifier"@,
        0x31 => "RoutineControl"@,
        0x34 => "RequestDownload"@,
        0x36 => "TransferData"@,
        0x37 => "RequestTransferExit"@,
        0x3E => "TesterPresent"@,
        _ => "Service 0x"@ + hex_u8(service_id),
    }
}

/// The name of a service for the log.
pub fn describe_service(service_id: u8) -> (name: String)
    ensures
        name@ == service_name(service_id),
{
    match service_id {
        0x10 => String::from_str("DiagnosticSessionControl"),
        0x11 => String::from_str("ECUReset"),
        0x22 => String::from_str("ReadDataByIdentifier"),
        0x27 => String::from_str("SecurityAccess"),
        0x2E => String::from_str("WriteDataByIdentifier"),
        0x31 => String::from_str("RoutineControl"),
        0x34 => String::from_str("RequestDownload"),
        0x36 => String::from_str("TransferData"),
        0x37 => String::from_str("RequestTransferExit"),
        0x3E => String::from_str("TesterPresent"),
        _ => {
            let mut name = String::from_str("Service 0x");
            push_hex_u8(&mut name, service_id);
            name
        },
    }
}

/// What a received payload means to the request in flight.
#[derive(Debug, Clone, Copy, PartialEq, Eq, Structural)]
pub enum FrameKind {
    /// No payload: nothing to read.
    Empty,
    /// The positive response to the request.
    Positive,
    /// The ECU needs more time; the response is still to come.
    Pending,
    /// A negative response to another service, left over from an earlier
    /// request.
    Stale(u8),
    /// The negative response to the request.
    Negative(NegativeResponseCode),
    /// Anything else.
    Unexpected,
}

/// What `payload` means to a request for the service `sid`. A negative
/// response counts only where it names `sid`; one that names another
/// service is stale. The positive response opens with `sid` plus 0x40.
pub open spec fn classify(sid: u8, payload: Seq<u8>) -> FrameKind {
    if payload.len() == 0 {
        FrameKind::Empty
    } else if payload[0] == 0x7F && payload.len() >= 3 {
        if payload[1] != sid {
            FrameKind::Stale(payload[1])
        } else if payload[2] == 0x78 {
            FrameKind::Pending
        } else {
            FrameKind::Negative(nrc_of(payload[2]))
        }
    } else if payload[0] as int == sid as int + 0x40 {
        FrameKind::Positive
    } else {
        FrameKind::Unexpected
    }
}

/// Whether a frame ends the wait for a response.
pub open spec fn is_decisive(kind: FrameKind) -> bool {
    kind is Positive || kind is Negative
}

/// Tells what `payload` means to a request for the service `sid`.
pub fn classify_frame(sid: u8, payload: &[u8]) -> (kind: FrameKind)
    ensures
        kind == classify(sid, payload@),
{
    if payload.len() == 0 {
        FrameKind::Empty
    } else if payload[0] == 0x7F && payload.len() >= 3 {
        if payload[1] != sid {
            FrameKind::Stale(payload[1])
        } else if payload[2] == 0x78 {
            FrameKind::Pending
        } else {
            FrameKind::Negative(NegativeResponseCode::from_byte(payload[2]))
        }
    } else if payload[0] as u16 == sid as u16 + 0x40 {
        FrameKind::Positive
    } else {
        FrameKind::Unexpected
    }
}

/// The index of the first message in `frames` that ends the wait.
pub open spec fn first_decisive(sid: u8, frames: Seq<PassThruMsg>) -> Option<int>
    decreases frames.len(),
{
    if frames.len() == 0 {
        None
    } else if is_decisive(classify(sid, frames[0].spec_payload())) {
        Some(0int)
    } else {
        match first_decisive(sid, frames.drop_first()) {
            Some(i) => Some(i + 1),
            None => None,
        }
    }
}

/// Whether `outcome` is what a frame of the kind `kind` with the payload
/// `payload` ends a request for `sid` with.
pub open spec fn ends_with(
    outcome: Result<Vec<u8>, UdsError>,
    sid: u8,
    kind: FrameKind,
    payload: Seq<u8>,
) -> bool {
    match kind {
        FrameKind::Positive => outcome is Ok && outcome->Ok_0@ == payload,
        FrameKind::Negative(nrc) => outcome is Err && outcome->Err_0 == (UdsError::NegativeResponse {
            service_id: sid,
            nrc,
        }),
        _ => false,
    }
}

/// What a batch of received messages means to a request for `sid`: the
/// outcome that the first decisive message gives, or nothing where none of
/// them is decisive.
pub open spec fn batch_outcome(
    result: Option<Result<Vec<u8>, UdsError>>,
    sid: u8,
    frames: Seq<PassThruMsg>,
) -> bool {
    match first_decisive(sid, frames) {
        Some(i) => result is Some && ends_with(
            result->Some_0,
            sid,
            classify(sid, frames[i].spec_payload()),
            frames[i].spec_payload(),
        ),
        None => result is None,
    }
}

/// What a wait for the response to a request for `sid` ends in, given the
/// frames that were read during it, in the order in which they came: the
/// first frame that is decisive ends the wait with what it means, whatever
/// was passed over before it; where no frame is decisive, the wait ends in
/// a timeout or in a failure of the channel.
pub open spec fn settles(sid: u8, frames: Seq<PassThruMsg>, outcome: Result<Vec<u8>, UdsError>) -> bool {
    match first_decisive(sid, frames) {
        Some(i) => ends_with(
            outcome,
            sid,
            classify(sid, frames[i].spec_payload()),
            frames[i].spec_payload(),
        ),
        None => outcome is Err && (outcome->Err_0 is Timeout || outcome->Err_0 is TransportError),
    }
}

/// Whether `outcome` is what some run of frames read from the channel
/// settles for a request for `sid`.
pub open spec fn is_settled(sid: u8, outcome: Result<Vec<u8>, UdsError>) -> bool {
    exists|frames: Seq<PassThruMsg>| #[trigger] settles(sid, frames, outcome)
}

/// Frames behind a run without a decisive frame: the first decisive frame
/// of the whole is that of the frames behind, further on by the length of
/// the run.
pub proof fn lemma_first_decisive_concat(sid: u8, head: Seq<PassThruMsg>, tail: Seq<PassThruMsg>)
    requires
        first_decisive(sid, head) is None,
    ensures
        first_decisive(sid, head + tail) == match first_decisive(sid, tail) {
            Some(i) => Some(head.len() + i),
            None => None,
        },
    decreases head.len(),
{
    if head.len() == 0 {
        assert(head + tail =~= tail);
    } else {
        assert((head + tail).drop_first() =~= head.drop_first() + tail);
        assert((head + tail)[0] == head[0]);
        lemma_first_decisive_concat(sid, head.drop_first(), tail);
    }
}

/// The first decisive frame lies within the frames.
pub proof fn lemma_first_decisive_in_range(sid: u8, frames: Seq<PassThruMsg>)
    ensures
        first_decisive(sid, frames) matches Some(i) ==> 0 <= i < frames.len() && is_decisive(
            classify(sid, frames[i].spec_payload()),
        ),
    decreases frames.len(),
{
    if frames.len() > 0 && !is_decisive(classify(sid, frames[0].spec_payload())) {
        lemma_first_decisive_in_range(sid, frames.drop_first());
        if first_decisive(sid, frames.drop_first()) is Some {
            let i = first_decisive(sid, frames.drop_first())->Some_0;
            assert(frames.drop_first()[i] == frames[i + 1]);
        }
    }
}

/// The first decisive frame is the one before which none is decisive.
pub proof fn lemma_first_decisive_at(sid: u8, frames: Seq<PassThruMsg>, i: int)
    requires
        0 <= i < frames.len(),
        forall|k: int| 0 <= k < i ==> !is_decisive(classify(sid, (#[trigger] frames[k]).spec_payload())),
        is_decisive(classify(sid, frames[i].spec_payload())),
    ensures
        first_decisive(sid, frames) == Some(i),
    decreases frames.len(),
{
    if i > 0 {
        let rest = frames.drop_first();
        assert forall|k: int| 0 <= k < i - 1 implies !is_decisive(
            classify(sid, (#[trigger] rest[k]).spec_payload()),
        ) by {
            assert(rest[k] == frames[k + 1]);
        }
        assert(rest[i - 1] == frames[i]);
        assert(!is_decisive(classify(sid, frames[0].spec_payload())));
        lemma_first_decisive_at(sid, rest, i - 1);
    }
}

/// Frames of which none is decisive hold no first decisive frame.
pub proof fn lemma_none_decisive(sid: u8, frames: Seq<PassThruMsg>)
    requires
        forall|k: int|
            0 <= k < frames.len() ==> !is_decisive(
                classify(sid, (#[trigger] frames[k]).spec_payload()),
            ),
    ensures
        first_decisive(sid, frames) is None,
    decreases frames.len(),
{
    if frames.len() > 0 {
        let rest = frames.drop_first();
        assert forall|k: int| 0 <= k < rest.len() implies !is_decisive(
            classify(sid, (#[trigger] rest[k]).spec_payload()),
        ) by {
            assert(rest[k] == frames[k + 1]);
        }
        assert(!is_decisive(classify(sid, frames[0].spec_payload())));
        lemma_none_decisive(sid, rest);
    }
}

/// A response that is pending, a negative response that names another
/// service, a frame that is neither the response nor a negative response,
/// and a frame without payload are passed over: none of them ends the wait.
pub proof fn lemma_passed_over(sid: u8, payload: Seq<u8>)
    ensures
        payload.len() >= 3 && payload[0] == 0x7F && payload[1] != sid ==> classify(sid, payload)
            == FrameKind::Stale(payload[1]) && !is_decisive(classify(sid, payload)),
        payload.len() >= 3 && payload[0] == 0x7F && payload[1] == sid && payload[2] == 0x78
            ==> classify(sid, payload) == FrameKind::Pending && !is_decisive(
            classify(sid, payload),
        ),
        payload.len() == 0 ==> !is_decisive(classify(sid, payload)),
{
}

/// The response that opens with the request's service plus 0x40 ends the
/// wait, unless it reads as a negative response.
pub proof fn lemma_response_is_decisive(sid: u8, payload: Seq<u8>)
    requires
        payload.len() >= 1,
        payload[0] as int == sid as int + 0x40,
        !(payload[0] == 0x7F && payload.len() >= 3),
    ensures
        classify(sid, payload) == FrameKind::Positive,
        is_decisive(classify(sid, payload)),
{
}

/// The wait ends with the first frame read that is decisive: where the
/// frames before the frame at `i` are all passed over and that frame is
/// the response, the call gives its payload; where it is the negative
/// response to the request, the call fails with its reason.
pub proof fn lemma_wait_ends_with(
    sid: u8,
    frames: Seq<PassThruMsg>,
    i: int,
    outcome: Result<Vec<u8>, UdsError>,
)
    requires
        settles(sid, frames, outcome),
        0 <= i < frames.len(),
        forall|k: int| 0 <= k < i ==> !is_decisive(classify(sid, (#[trigger] frames[k]).spec_payload())),
        is_decisive(classify(sid, frames[i].spec_payload())),
    ensures
        ends_with(
            outcome,
            sid,
            classify(sid, frames[i].spec_payload()),
            frames[i].spec_payload(),
        ),
        classify(sid, frames[i].spec_payload()) is Positive ==> outcome is Ok && outcome->Ok_0@
            == frames[i].spec_payload(),
{
    lemma_first_decisive_at(sid, frames, i);
}

/// Where every frame read is passed over, the call ends in a timeout or in
/// a failure of the channel, and never in a negative response.
pub proof fn lemma_wait_without_answer(
    sid: u8,
    frames: Seq<PassThruMsg>,
    outcome: Result<Vec<u8>, UdsError>,
)
    requires
        settles(sid, frames, outcome),
        forall|k: int|
            0 <= k < frames.len() ==> !is_decisive(
                classify(sid, (#[trigger] frames[k]).spec_payload()),
            ),
    ensures
        outcome is Err,
        outcome->Err_0 is Timeout || outcome->Err_0 is TransportError,
{
    lemma_none_decisive(sid, frames);
}

/// A response alone: where the one frame read is the response, the call
/// gives its payload.
pub proof fn lemma_response_is_returned(
    sid: u8,
    answer: PassThruMsg,
    outcome: Result<Vec<u8>, UdsError>,
)
    requires
        classify(sid, answer.spec_payload()) is Positive,
        settles(sid, seq![answer], outcome),
    ensures
        outcome is Ok,
        outcome->Ok_0@ == answer.spec_payload(),
{
    let frames = seq![answer];
    assert(frames[0] == answer);
    lemma_wait_ends_with(sid, frames, 0, outcome);
}

/// Pending, then the response: the frame that says that the response is
/// pending does not end the call and is not returned; the response that
/// follows it is.
pub proof fn lemma_pending_then_response(
    sid: u8,
    pending: PassThruMsg,
    answer: PassThruMsg,
    outcome: Result<Vec<u8>, UdsError>,
)
    requires
        classify(sid, pending.spec_payload()) is Pending,
        classify(sid, answer.spec_payload()) is Positive,
        settles(sid, seq![pending, answer], outcome),
    ensures
        outcome is Ok,
        outcome->Ok_0@ == answer.spec_payload(),
{
    let frames = seq![pending, answer];
    assert(frames[0] == pending && frames[1] == answer);
    lemma_wait_ends_with(sid, frames, 1, outcome);
}

/// A stale negative response, then the response: the negative response
/// that names another service gives no error; the response that follows it
/// is returned.
pub proof fn lemma_stale_then_response(
    sid: u8,
    stale: PassThruMsg,
    answer: PassThruMsg,
    outcome: Result<Vec<u8>, UdsError>,
)
    requires
        classify(sid, stale.spec_payload()) is Stale,
        classify(sid, answer.spec_payload()) is Positive,
        settles(sid, seq![stale, answer], outcome),
    ensures
        outcome is Ok,
        outcome->Ok_0@ == answer.spec_payload(),
{
    let frames = seq![stale, answer];
    assert(frames[0] == stale && frames[1] == answer);
    lemma_wait_ends_with(sid, frames, 1, outcome);
}

/// A stale negative response alone: where it is the only frame that ever
/// comes, the call ends in a timeout or in a failure of the channel, not
/// in a negative response.
pub proof fn lemma_stale_alone_gives_no_error_of_its_own(
    sid: u8,
    stale: PassThruMsg,
    outcome: Result<Vec<u8>, UdsError>,
)
    requires
        classify(sid, stale.spec_payload()) is Stale,
        settles(sid, seq![stale], outcome),
    ensures
        outcome is Err,
        outcome->Err_0 is Timeout || outcome->Err_0 is TransportError,
{
    let frames = seq![stale];
    assert(frames[0] == stale);
    lemma_wait_without_answer(sid, frames, outcome);
}

/// What a request for `sid` can end with, whatever the channel does: its
/// positive response; a negative response that names `sid` and is neither
/// pending nor of an unnamed kind that hides a named byte; a timeout; or a
/// failure of the channel.
pub open spec fn is_exchange_outcome(sid: u8, outcome: Result<Vec<u8>, UdsError>) -> bool {
    match outcome {
        Ok(response) => classify(sid, response@) is Positive,
        Err(UdsError::NegativeResponse { service_id, nrc }) => {
            &&& service_id == sid
            &&& nrc.spec_byte() != 0x78
            &&& nrc == nrc_of(nrc.spec_byte())
        },
        Err(UdsError::Timeout) => true,
        Err(UdsError::TransportError(_)) => true,
        Err(_) => false,
    }
}

/// The note on a negative response that names another service.
pub open spec fn stale_note_text(sid: u8, other: u8) -> Seq<char> {
    "Ignoring stale NRC for service 0x"@ + hex_u8(other) + " (expected 0x"@ + hex_u8(sid) + ")"@
}

/// The byte that opens the positive response to `sid`, taken modulo 256.
pub open spec fn positive_byte(sid: u8) -> u8 {
    ((sid as int + 0x40) % 0x100) as u8
}

/// The note on a frame that is neither the response nor a negative
/// response.
pub open spec fn unexpected_note_text(sid: u8, first: u8) -> Seq<char> {
    "Unexpected response: expected 0x"@ + hex_u8(positive_byte(sid)) + ", got 0x"@ + hex_u8(first)
}

/// The text of the log record for a frame of the kind `kind` whose first
/// byte is `first`: the service for the positive response, the reason for
/// a negative one, and for a frame that is passed over what it was and
/// what was expected.
pub open spec fn frame_note_text(sid: u8, kind: FrameKind, first: u8) -> Seq<char> {
    match kind {
        FrameKind::Empty => Seq::<char>::empty(),
        FrameKind::Positive => service_name(sid),
        FrameKind::Pending => "Response pending..."@,
        FrameKind::Stale(other) => stale_note_text(sid, other),
        FrameKind::Negative(nrc) => "NRC: "@ + nrc.spec_text(),
        FrameKind::Unexpected => unexpected_note_text(sid, first),
    }
}

fn stale_note(sid: u8, other: u8) -> (note: String)
    ensures
        note@ == stale_note_text(sid, other),
{
    let mut note = String::from_str("Ignoring stale NRC for service 0x");
    push_hex_u8(&mut note, other);
    note.append(" (expected 0x");
    push_hex_u8(&mut note, sid);
    note.append(")");
    note
}

fn unexpected_note(sid: u8, first: u8) -> (note: String)
    ensures
        note@ == unexpected_note_text(sid, first),
{
    let expected: u8 = if sid >= 0xC0 {
        sid - 0xC0
    } else {
        sid + 0x40
    };
    assert(expected == positive_byte(sid));
    let mut note = String::from_str("Unexpected response: expected 0x");
    push_hex_u8(&mut note, expected);
    note.append(", got 0x");
    push_hex_u8(&mut note, first);
    note
}

fn negative_note(nrc: NegativeResponseCode) -> (note: String)
    ensures
        note@ == "NRC: "@ + nrc.spec_text(),
{
    let mut note = String::from_str("NRC: ");
    note.append(nrc.to_string().as_str());
    note
}

/// Writes the text of the log record for a frame.
pub fn frame_note(sid: u8, kind: FrameKind, first: u8) -> (note: String)
    ensures
        note@ == frame_note_text(sid, kind, first),
{
    match kind {
        FrameKind::Empty => String::new(),
        FrameKind::Positive => describe_service(sid),
        FrameKind::Pending => String::from_str("Response pending..."),
        FrameKind::Stale(other) => stale_note(sid, other),
        FrameKind::Negative(nrc) => negative_note(nrc),
        FrameKind::Unexpected => unexpected_note(sid, first),
    }
}

/// The direction of the log record for a frame of the kind `kind`.
pub fn frame_direction(kind: FrameKind) -> (direction: LogDirection)
    ensures
        direction == match kind {
            FrameKind::Pending => LogDirection::Pending,
            FrameKind::Negative(_) => LogDirection::Error,
            FrameKind::Unexpected => LogDirection::Error,
            _ => LogDirection::Rx,
        },
{
    match kind {
        FrameKind::Pending => LogDirection::Pending,
        FrameKind::Negative(_) => LogDirection::Error,
        FrameKind::Unexpected => LogDirection::Error,
        _ => LogDirection::Rx,
    }
}

/// Goes through a batch of received messages in order, logs what each means
/// to the request for `sid`, and stops at the first that ends the wait.
pub fn scan_frames<L: LogSink>(log: &L, sid: u8, frames: &Vec<PassThruMsg>) -> (result: Option<
    Result<Vec<u8>, UdsError>,
>)
    ensures
        batch_outcome(result, sid, frames@),
        result matches Some(outcome) ==> is_exchange_outcome(sid, outcome) && !(outcome
            is Err && outcome->Err_0 is Timeout) && !(outcome is Err
            && outcome->Err_0 is TransportError),
{
    let n = frames.len();
    let mut i: usize = 0;
    while i < n
        invariant
            n == frames@.len(),
            i <= n,
            first_decisive(sid, frames@.subrange(0, i as int)) is None,
        decreases n - i,
    {
        let msg = &frames[i];
        proof {
            lemma_first_decisive_push(sid, frames@.subrange(0, i as int), frames@[i as int]);
            assert(frames@.subrange(0, i as int).push(frames@[i as int]) =~= frames@.subrange(
                0,
                i + 1,
            ));
        }
        if msg.data_size > 4 && msg.data_size as usize <= MAX_DATA_SIZE {
            let payload = msg.payload();
            let kind = classify_frame(sid, payload);
            log.emit(
                log_entry(
                    frame_direction(kind),
                    payload,
                    frame_note(sid, kind, payload[0]).as_str(),
                ),
            );
            match kind {
                FrameKind::Positive => {
                    proof {
                        lemma_first_decisive_prefix(sid, frames@, i + 1);
                    }
                    return Some(Ok(slice_to_vec(payload)));
                },
                FrameKind::Negative(nrc) => {
                    proof {
                        lemma_first_decisive_prefix(sid, frames@, i + 1);
                    }
                    return Some(Err(UdsError::NegativeResponse { service_id: sid, nrc }));
                },
                _ => {},
            }
        }
        i += 1;
    }
    assert(frames@.subrange(0, n as int) =~= frames@);
    None
}

/// Adding a message behind a batch without a decisive message: the new
/// message is the first decisive one, or there is still none.
pub proof fn lemma_first_decisive_push(sid: u8, frames: Seq<PassThruMsg>, next: PassThruMsg)
    requires
        first_decisive(sid, frames) is None,
    ensures
        first_decisive(sid, frames.push(next)) == if is_decisive(
            classify(sid, next.spec_payload()),
        ) {
            Some(frames.len() as int)
        } else {
            None
        },
    decreases frames.len(),
{
    if frames.len() == 0 {
        assert(frames.push(next).drop_first() =~= frames);
    } else {
        assert(frames.push(next).drop_first() =~= frames.drop_first().push(next));
        lemma_first_decisive_push(sid, frames.drop_first(), next);
    }
}

/// The first decisive message of a batch is that of each beginning of the
/// batch that holds it.
pub proof fn lemma_first_decisive_prefix(sid: u8, frames: Seq<PassThruMsg>, len: int)
    requires
        0 <= len <= frames.len(),
        first_decisive(sid, frames.subrange(0, len)) is Some,
    ensures
        first_decisive(sid, frames) == first_decisive(sid, frames.subrange(0, len)),
    decreases len,
{
    let head = frames.subrange(0, len);
    if len > 0 {
        assert(head[0] == frames[0]);
        if !is_decisive(classify(sid, frames[0].spec_payload())) {
            assert(head.drop_first() =~= frames.drop_first().subrange(0, len - 1));
            lemma_first_decisive_prefix(sid, frames.drop_first(), len - 1);
        }
    }
}

/// How long the client waits for the write of a request, in milliseconds.
pub const SEND_TIMEOUT_MS: u32 = 2000;

/// How long one read waits for a message, in milliseconds.
pub const READ_SLICE_MS: u32 = 500;

/// The pause between two reads, in milliseconds.
pub const POLL_PAUSE_MS: u32 = 50;

/// The deadline of a request whose response may be pending, in milliseconds.
pub const PENDING_DEADLINE_MS: u32 = 30000;

/// What the write of a request means to the client: a write that the
/// channel took is done; one that it refused is a failure of the transport
/// with the channel's text.
pub fn write_outcome(written: Result<(), String>) -> (outcome: Result<(), UdsError>)
    ensures
        written is Ok ==> outcome is Ok,
        written matches Err(text) ==> outcome == Err::<(), UdsError>(
            UdsError::TransportError(text),
        ),
{
    match written {
        Ok(()) => Ok(()),
        Err(text) => Err(UdsError::TransportError(text)),
    }
}

/// How many reads fit into a deadline: with a pause after every read, the
/// deadline has passed before that many reads are done.
pub open spec fn reads_within(deadline_ms: u32) -> int {
    deadline_ms as int / POLL_PAUSE_MS as int + 2
}

/// Whether the wait for a response is over: the clock shows more than the
/// deadline, or the reads that fit into the deadline are used up.
pub open spec fn wait_is_over(reads_left: u32, elapsed_ms: u128, deadline_ms: u32) -> bool {
    reads_left == 0 || elapsed_ms > deadline_ms as u128
}

/// Tells whether the wait for a response is over.
pub fn deadline_passed(reads_left: u32, elapsed_ms: u128, deadline_ms: u32) -> (over: bool)
    ensures
        over == wait_is_over(reads_left, elapsed_ms, deadline_ms),
{
    reads_left == 0 || elapsed_ms > deadline_ms as u128
}

/// Writes `request` to `tx_id` and waits up to `deadline_ms` for what ends
/// it: reads in slices, with a pause after each, until a decisive frame
/// comes or the deadline has passed. Pending responses, stale negative
/// responses and other frames are logged and passed over.
pub fn exchange<C: Channel, L: LogSink>(
    channel: &C,
    log: &L,
    tx_id: u32,
    request: &[u8],
    deadline_ms: u32,
) -> (outcome: Result<Vec<u8>, UdsError>)
    requires
        1 <= request@.len() <= MAX_PAYLOAD_SIZE,
    ensures
        is_exchange_outcome(request@[0], outcome),
        is_settled(request@[0], outcome),
{
    let sid = request[0];
    let msg = PassThruMsg::new_iso15765(tx_id, request);
    let ghost mut seen: Seq<PassThruMsg> = Seq::empty();
    match write_outcome(channel.send(&msg, SEND_TIMEOUT_MS)) {
        Ok(()) => {},
        Err(e) => {
            assert(settles(sid, seen, Err::<Vec<u8>, UdsError>(e)));
            return Err(e);
        },
    }
    let start = std::time::Instant::now();
    let mut reads_left: u32 = deadline_ms / POLL_PAUSE_MS + 2;
    assert(reads_left == reads_within(deadline_ms));
    loop
        invariant
            sid == request@[0],
            first_decisive(sid, seen) is None,
        decreases reads_left,
    {
        let elapsed = start.elapsed().as_millis();
        if deadline_passed(reads_left, elapsed, deadline_ms) {
            let none: [u8; 0] = [];
            log.emit(log_entry(LogDirection::Error, &none, "Timeout waiting for response"));
            assert(settles(sid, seen, Err::<Vec<u8>, UdsError>(UdsError::Timeout)));
            return Err(UdsError::Timeout);
        }
        reads_left -= 1;
        let frames = match channel.read(READ_SLICE_MS) {
            Ok(frames) => frames,
            Err(e) => {
                assert(settles(sid, seen, Err::<Vec<u8>, UdsError>(UdsError::TransportError(e))));
                return Err(UdsError::TransportError(e));
            },
        };
        let scanned = scan_frames(log, sid, &frames);
        proof {
            lemma_first_decisive_concat(sid, seen, frames@);
            if scanned is Some {
                let i = first_decisive(sid, frames@)->Some_0;
                lemma_first_decisive_in_range(sid, frames@);
                assert((seen + frames@)[seen.len() + i] == frames@[i]);
                assert(settles(sid, seen + frames@, scanned->Some_0));
            }
            seen = seen + frames@;
        }
        match scanned {
            Some(outcome) => {
                return outcome;
            },
            None => {},
        }
        channel.pause(POLL_PAUSE_MS);
    }
}

/// A UDS client on one channel for one ECU address pair.
pub struct UdsClient<C: Channel> {
    channel: C,
    tx_id: u32,
    rx_id: u32,
    log_callback: Option<LogCallback>,
}

impl<C: Channel> LogSink for UdsClient<C> {
    /// Hands the record to the client's sink, if it has one.
    fn emit(&self, entry: LogEntry) {
        match &self.log_callback {
            Some(callback) => {
                callback.emit(entry);
            },
            None => {},
        }
    }
}

impl<C: Channel> UdsClient<C> {
    /// The address that this client sends to.
    pub closed spec fn spec_tx_id(&self) -> u32 {
        self.tx_id
    }

    /// The address that this client's ECU answers from.
    pub closed spec fn spec_rx_id(&self) -> u32 {
        self.rx_id
    }

    /// The channel that this client sends on.
    pub closed spec fn spec_channel(&self) -> C {
        self.channel
    }

    /// The sink that this client's log records go to, if it has one.
    pub closed spec fn spec_log(&self) -> Option<LogCallback> {
        self.log_callback
    }

    /// Whether this client has a sink for its log records.
    pub open spec fn has_log(&self) -> bool {
        self.spec_log() is Some
    }

    /// A client without a log sink.
    pub fn new(channel: C, tx_id: u32, rx_id: u32) -> (client: Self)
        ensures
            client.spec_tx_id() == tx_id,
            client.spec_rx_id() == rx_id,
            client.spec_channel() == channel,
            !client.has_log(),
    {
        UdsClient { channel, tx_id, rx_id, log_callback: None }
    }

    /// Gives the client the sink that its log records go to.
    pub fn set_log_callback(&mut self, callback: LogCallback)
        ensures
            final(self).spec_tx_id() == old(self).spec_tx_id(),
            final(self).spec_rx_id() == old(self).spec_rx_id(),
            final(self).spec_channel() == old(self).spec_channel(),
            final(self).spec_log() == Some(callback),
    {
        let sink = Some(callback);
        self.log_callback = sink;
    }

    /// Sends `request` and waits for what ends it. The wait lasts
    /// `timeout_ms`, or the pending deadline where `wait_pending` is set.
    pub fn send_recv(&self, request: &[u8], timeout_ms: u32, wait_pending: bool) -> (outcome:
        Result<Vec<u8>, UdsError>)
        requires
            1 <= request@.len() <= MAX_PAYLOAD_SIZE,
        ensures
            is_exchange_outcome(request@[0], outcome),
            is_settled(request@[0], outcome),
    {
        self.emit(log_entry(LogDirection::Tx, request, describe_service(request[0]).as_str()));
        let deadline = if wait_pending {
            PENDING_DEADLINE_MS
        } else {
            timeout_ms
        };
        exchange(&self.channel, self, self.tx_id, request, deadline)
    }

    /// Sends `request` and does not wait: for a request that suppresses its
    /// positive response. Fails only where the channel fails.
    pub fn send_no_response(&self, request: &[u8]) -> (outcome: Result<(), UdsError>)
        requires
            1 <= request@.len() <= MAX_PAYLOAD_SIZE,
        ensures
            outcome is Err ==> outcome->Err_0 is TransportError,
    {
        self.emit(log_entry(LogDirection::Tx, request, describe_service(request[0]).as_str()));
        let msg = PassThruMsg::new_iso15765(self.tx_id, request);
        write_outcome(self.channel.send(&msg, SEND_TIMEOUT_MS))
    }

    /// The address that this client sends to.
    pub fn tx_id(&self) -> (id: u32)
        ensures
            id == self.spec_tx_id(),
    {
        self.tx_id
    }

    /// The address that this client's ECU answers from.
    pub fn rx_id(&self) -> (id: u32)
        ensures
            id == self.spec_rx_id(),
    {
        self.rx_id
    }

    /// The channel that this client sends on.
    pub fn channel(&self) -> (channel: &C)
        ensures
            *channel == self.spec_channel(),
    {
        &self.channel
    }
}

} // verus!
