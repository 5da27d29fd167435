//! Data identifiers that the read flows know by name.

use vstd::prelude::*;

verus! {

pub const VIN: u16 = 0xF190;
/// Assembly or spare part number.
pub const ASSEMBLY_PART: u16 = 0xF187;
/// ECU hardware number.
pub const HARDWARE_PART: u16 = 0xF191;
pub const MASTER_RPM_PART: u16 = 0xF188;
pub const V850_PART: u16 = 0xF120;
pub const TUNER_PART: u16 = 0xF121;
pub const POLAR_PART: u16 = 0xF1A5;
pub const PBL_PART: u16 = 0xF180;
pub const ECU_SERIAL: u16 = 0xF18C;
pub const ECU_SERIAL2: u16 = 0xF113;
pub const ACTIVE_DIAG_SESSION: u16 = 0xD100;
pub const IMC_STATUS: u16 = 0x0202;
pub const BATTERY_VOLTAGE: u16 = 0x402A;
pub const BATTERY_SOC: u16 = 0x4028;
pub const BATTERY_TEMP: u16 = 0x4029;

} // verus!
