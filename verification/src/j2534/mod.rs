pub mod device;
pub mod dll;
pub mod types;

use vstd::prelude::*;
use types::{PassThruMsg, CAN_11BIT_MASK};

verus! {

/// A channel of the pass-through adapter, as the UDS client needs it. The
/// client is written against this trait, so that it runs on the adapter and
/// on a scripted channel alike. No method promises anything of its result:
/// what the client does is proved for every behaviour of the channel. What
/// the client owes the channel is stated: it writes well-formed messages
/// only, and asks for filters on eleven-bit addresses only.
pub trait Channel: Send {
    /// Writes one message; fails with the adapter's text.
    fn send(&self, msg: &PassThruMsg, timeout_ms: u32) -> Result<(), String>
        requires
            msg.well_formed(),
    ;

    /// Hands out the messages that arrived, waiting up to `timeout_ms` for
    /// the first; an empty list where none came.
    fn read(&self, timeout_ms: u32) -> Result<Vec<PassThruMsg>, String>;

    /// Installs the flow-control filter for one ECU address pair and gives
    /// its identifier. The filter compares eleven identifier bits, so the
    /// client hands over addresses of eleven bits only.
    fn setup_iso15765_filter(&self, tx_id: u32, rx_id: u32) -> Result<u32, String>
        requires
            tx_id <= CAN_11BIT_MASK,
            rx_id <= CAN_11BIT_MASK,
    ;

    /// Lets about `ms` milliseconds pass before it returns.
    fn pause(&self, ms: u32);
}

} // verus!
