//! What the host reads out of an adapter's answers.

use vstd::prelude::*;
use vstd::slice::*;
use crate::text::{decode_utf8_lossy, utf8_lossy};

verus! {

/// Length of each buffer that the adapter fills with a version text.
pub const VERSION_BUFFER_LEN: usize = 80;

/// The baud rate of the vehicle's diagnostic bus.
pub const CAN_BAUD_RATE: u32 = 500000;

/// The versions that an adapter reports.
#[derive(Debug, Clone)]
pub struct DeviceVersion {
    pub firmware: String,
    pub dll: String,
    pub api: String,
}

/// The number of bytes before the first zero byte; the whole length where
/// there is none.
pub open spec fn text_len(buffer: Seq<u8>) -> int
    decreases buffer.len(),
{
    if buffer.len() == 0 || buffer[0] == 0 {
        0
    } else {
        1 + text_len(buffer.drop_first())
    }
}

/// The bytes before the first zero byte.
pub open spec fn until_nul(buffer: Seq<u8>) -> Seq<u8> {
    buffer.subrange(0, text_len(buffer))
}

/// The text is no longer than its buffer, holds no zero byte, and ends at
/// a zero byte or at the end of the buffer.
pub proof fn lemma_text_len(buffer: Seq<u8>)
    ensures
        0 <= text_len(buffer) <= buffer.len(),
        forall|i: int| 0 <= i < text_len(buffer) ==> buffer[i] != 0,
        text_len(buffer) < buffer.len() ==> buffer[text_len(buffer)] == 0,
    decreases buffer.len(),
{
    if buffer.len() != 0 && buffer[0] != 0 {
        lemma_text_len(buffer.drop_first());
        assert forall|i: int| 0 <= i < text_len(buffer) implies buffer[i] != 0 by {
            if i > 0 {
                assert(buffer[i] == buffer.drop_first()[i - 1]);
            }
        }
    }
}

proof fn lemma_text_len_at(buffer: Seq<u8>, n: int)
    requires
        0 <= n <= buffer.len(),
        forall|i: int| 0 <= i < n ==> buffer[i] != 0,
        n < buffer.len() ==> buffer[n] == 0,
    ensures
        text_len(buffer) == n,
    decreases buffer.len(),
{
    if n > 0 {
        assert(buffer[0] != 0);
        let rest = buffer.drop_first();
        assert forall|i: int| 0 <= i < n - 1 implies rest[i] != 0 by {
            assert(rest[i] == buffer[i + 1]);
        }
        lemma_text_len_at(rest, n - 1);
    }
}

/// The text that a buffer of the adapter holds: its bytes before the first
/// zero byte, decoded as UTF-8.
pub fn version_text(buffer: &[u8]) -> (text: String)
    ensures
        text@ == utf8_lossy(until_nul(buffer@)),
{
    let n = buffer.len();
    let mut end: usize = 0;
    while end < n && buffer[end] != 0
        invariant
            n == buffer@.len(),
            end <= n,
            forall|i: int| 0 <= i < end ==> buffer@[i] != 0,
        decreases n - end,
    {
        end += 1;
    }
    proof {
        lemma_text_len_at(buffer@, end as int);
    }
    decode_utf8_lossy(slice_subrange(buffer, 0, end))
}

/// The versions in the three buffers that the adapter filled.
pub fn device_version(firmware: &[u8], dll: &[u8], api: &[u8]) -> (version: DeviceVersion)
    ensures
        version.firmware@ == utf8_lossy(until_nul(firmware@)),
        version.dll@ == utf8_lossy(until_nul(dll@)),
        version.api@ == utf8_lossy(until_nul(api@)),
{
    DeviceVersion {
        firmware: version_text(firmware),
        dll: version_text(dll),
        api: version_text(api),
    }
}

} // verus!
