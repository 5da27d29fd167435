//! The orchestrator: the read flows for each ECU, the scans, the routines
//! and the comparison of the central configuration across ECUs.

pub mod bench;
pub mod catalog;
pub mod ccf;
pub mod format;
pub mod info;
pub mod request;
pub mod routines;
pub mod scan;

use vstd::prelude::*;

verus! {

/// One option of the central configuration as each ECU holds it.
#[derive(Debug, Clone)]
pub struct CcfCompareEntry {
    pub option_id: u16,
    pub name: String,
    /// The decoded value in the gateway's block, where the block reaches it.
    pub gwm: Option<String>,
    /// The decoded value in the body control module's block.
    pub bcm: Option<String>,
    /// The decoded value in the infotainment module's block.
    pub imc: Option<String>,
    /// Two of the values that are there differ.
    pub mismatch: bool,
}

/// The versions that an adapter reports, with the library it was loaded
/// from.
#[derive(Debug, Clone)]
pub struct DeviceInfo {
    pub firmware_version: String,
    pub dll_version: String,
    pub api_version: String,
    pub dll_path: String,
}

/// One row of an ECU's information: the value that was read, or why it
/// could not be read.
#[derive(Debug, Clone)]
pub struct EcuInfoEntry {
    pub label: String,
    pub did_hex: String,
    pub value: Option<String>,
    pub error: Option<String>,
    pub category: String,
}

/// One routine of the catalog.
#[derive(Debug, Clone)]
pub struct RoutineInfo {
    pub routine_id: u16,
    pub name: String,
    pub description: String,
    pub category: String,
    pub needs_security: bool,
    pub needs_pending: bool,
}

/// What a routine answered.
#[derive(Debug, Clone)]
pub struct RoutineResponse {
    pub success: bool,
    pub description: String,
    pub raw_data: Vec<u8>,
}

/// An adapter that is installed on this machine.
#[derive(Debug, Clone)]
pub struct J2534DeviceEntry {
    pub name: String,
    pub dll_path: String,
}

/// Whether the bench mode is on, and for which ECUs.
#[derive(Debug, Clone)]
pub struct BenchModeStatus {
    pub enabled: bool,
    pub emulated_ecus: Vec<String>,
}

/// The view of an optional text.
pub open spec fn text_view(text: Option<String>) -> Option<Seq<char>> {
    match text {
        Some(s) => Some(s@),
        None => None,
    }
}

/// One row of an ECU's information, as plain values.
pub struct InfoRow {
    pub label: Seq<char>,
    pub did_hex: Seq<char>,
    pub value: Option<Seq<char>>,
    pub error: Option<Seq<char>>,
    pub category: Seq<char>,
}

impl EcuInfoEntry {
    /// This row as plain values.
    pub open spec fn row(&self) -> InfoRow {
        InfoRow {
            label: self.label@,
            did_hex: self.did_hex@,
            value: text_view(self.value),
            error: text_view(self.error),
            category: self.category@,
        }
    }
}

/// The rows of a list of entries.
pub open spec fn rows(entries: Seq<EcuInfoEntry>) -> Seq<InfoRow> {
    entries.map_values(|e: EcuInfoEntry| e.row())
}

} // verus!
