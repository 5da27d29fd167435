//! CAN addresses of the platform's ECUs: `TX` is what the tester sends to,
//! `RX` is what the ECU answers from.

use vstd::prelude::*;

verus! {

pub const IMC_TX: u32 = 0x7B3;
pub const IMC_RX: u32 = 0x7BB;
pub const GWM_TX: u32 = 0x716;
pub const GWM_RX: u32 = 0x71E;
pub const BCM_TX: u32 = 0x726;
pub const BCM_RX: u32 = 0x72E;
pub const IPC_TX: u32 = 0x720;
pub const IPC_RX: u32 = 0x728;

} // verus!
