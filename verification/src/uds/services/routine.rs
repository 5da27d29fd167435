//! Routine identifiers of the infotainment module.

use vstd::prelude::*;

verus! {

pub const CONFIGURE_LINUX: u16 = 0x6038;
pub const ENG_SCREEN_LVL2: u16 = 0x603D;
pub const SSH_ENABLE: u16 = 0x603E;
pub const DVD_RECOVER: u16 = 0x603F;
pub const FAN_CONTROL: u16 = 0x6041;
pub const RESET_PIN: u16 = 0x6042;
pub const POWER_OVERRIDE: u16 = 0x6043;
pub const GEN_KEY: u16 = 0x6045;
pub const SHARED_SECRET: u16 = 0x6046;
pub const VIN_LEARN: u16 = 0x0404;
pub const RETRIEVE_CCF: u16 = 0x0E00;
pub const REPORT_CCF: u16 = 0x0E01;
pub const LIST_CCF: u16 = 0x0E02;

} // verus!
