//! The routines of the infotainment module that the host knows, with what
//! each needs before it runs.

use vstd::prelude::*;
use vstd::string::*;
use crate::commands::RoutineInfo;
use crate::uds::services::routine;

verus! {

/// One entry of the routine catalog, as plain values.
pub struct RoutineRow {
    pub routine_id: u16,
    pub name: Seq<char>,
    pub description: Seq<char>,
    pub category: Seq<char>,
    /// The routine runs only after the security access.
    pub needs_security: bool,
    /// The routine may answer that its response is pending.
    pub needs_pending: bool,
}

impl RoutineInfo {
    /// This entry as plain values.
    pub open spec fn row(&self) -> RoutineRow {
        RoutineRow {
            routine_id: self.routine_id,
            name: self.name@,
            description: self.description@,
            category: self.category@,
            needs_security: self.needs_security,
            needs_pending: self.needs_pending,
        }
    }
}

/// The number of routines in the catalog.
pub const ROUTINE_COUNT: usize = 13;

/// The catalog, entry by entry.
pub open spec fn catalog_row(index: int) -> RoutineRow {
    if index == 0 {
        RoutineRow {
            routine_id: 0x603E,
            name: "SSH Enable"@,
            description: "Enable SSH access on IMC (0x603E)"@,
            category: "Diagnostics"@,
            needs_security: true,
            needs_pending: true,
        }
    } else if index == 1 {
        RoutineRow {
            routine_id: 0x603D,
            name: "Engineering Screen Level 2"@,
            description: "Enable engineering screen level 2 (0x603D)"@,
            category: "Diagnostics"@,
            needs_security: true,
            needs_pending: false,
        }
    } else if index == 2 {
        RoutineRow {
            routine_id: 0x6043,
            name: "IMC Power Override"@,
            description: "Override IMC power state (0x6043)"@,
            category: "Diagnostics"@,
            needs_security: true,
            needs_pending: false,
        }
    } else if index == 3 {
        RoutineRow {
            routine_id: 0x6038,
            name: "Configure Linux to Hardware"@,
            description: "Reconfigure IMC Linux environment (0x6038)"@,
            category: "Configuration"@,
            needs_security: true,
            needs_pending: true,
        }
    } else if index == 4 {
        RoutineRow {
            routine_id: 0x0404,
            name: "VIN Learn"@,
            description: "Learn VIN to ECU (0x0404)"@,
            category: "Configuration"@,
            needs_security: false,
            needs_pending: false,
        }
    } else if index == 5 {
        RoutineRow {
            routine_id: 0x0E00,
            name: "Retrieve CCF"@,
            description: "Retrieve Central Configuration (0x0E00)"@,
            category: "Configuration"@,
            needs_security: false,
            needs_pending: true,
        }
    } else if index == 6 {
        RoutineRow {
            routine_id: 0x0E01,
            name: "Report CCF"@,
            description: "Report Central Configuration (0x0E01)"@,
            category: "Configuration"@,
            needs_security: false,
            needs_pending: true,
        }
    } else if index == 7 {
        RoutineRow {
            routine_id: 0x0E02,
            name: "List CCF"@,
            description: "List Central Configuration (0x0E02)"@,
            category: "Configuration"@,
            needs_security: false,
            needs_pending: true,
        }
    } else if index == 8 {
        RoutineRow {
            routine_id: 0x603F,
            name: "Recover Locked DVD Region"@,
            description: "Recover locked DVD region (0x603F)"@,
            category: "Recovery"@,
            needs_security: true,
            needs_pending: false,
        }
    } else if index == 9 {
        RoutineRow {
            routine_id: 0x6042,
            name: "Reset Customer Pin"@,
            description: "Reset customer PIN code (0x6042)"@,
            category: "Recovery"@,
            needs_security: true,
            needs_pending: false,
        }
    } else if index == 10 {
        RoutineRow {
            routine_id: 0x6041,
            name: "Control Auxiliary Fan"@,
            description: "Control auxiliary fan (0x6041)"@,
            category: "Advanced"@,
            needs_security: true,
            needs_pending: false,
        }
    } else if index == 11 {
        RoutineRow {
            routine_id: 0x6045,
            name: "Generate Key"@,
            description: "Generate cryptographic key (0x6045)"@,
            category: "Advanced"@,
            needs_security: true,
            needs_pending: false,
        }
    } else {
        RoutineRow {
            routine_id: 0x6046,
            name: "Shared Secret"@,
            description: "Compute shared secret (0x6046)"@,
            category: "Advanced"@,
            needs_security: true,
            needs_pending: false,
        }
    }
}

/// Where the catalog holds a routine.
pub open spec fn catalog_index(routine_id: u16) -> Option<int> {
    match routine_id {
        0x603E => Some(0int),
        0x603D => Some(1int),
        0x6043 => Some(2int),
        0x6038 => Some(3int),
        0x0404 => Some(4int),
        0x0E00 => Some(5int),
        0x0E01 => Some(6int),
        0x0E02 => Some(7int),
        0x603F => Some(8int),
        0x6042 => Some(9int),
        0x6041 => Some(10int),
        0x6045 => Some(11int),
        0x6046 => Some(12int),
        _ => None,
    }
}

/// The catalog holds every routine once, where `catalog_index` says.
pub proof fn lemma_catalog_index(routine_id: u16, index: int)
    requires
        0 <= index < ROUTINE_COUNT,
    ensures
        catalog_row(index).routine_id == routine_id <==> catalog_index(routine_id) == Some(index),
{
}

fn catalog_entry(index: usize) -> (info: RoutineInfo)
    requires
        index < ROUTINE_COUNT,
    ensures
        info.row() == catalog_row(index as int),
{
    if index == 0 {
        RoutineInfo {
            routine_id: routine::SSH_ENABLE,
            name: String::from_str("SSH Enable"),
            description: String::from_str("Enable SSH access on IMC (0x603E)"),
            category: String::from_str("Diagnostics"),
            needs_security: true,
            needs_pending: true,
        }
    } else if index == 1 {
        RoutineInfo {
            routine_id: routine::ENG_SCREEN_LVL2,
            name: String::from_str("Engineering Screen Level 2"),
            description: String::from_str("Enable engineering screen level 2 (0x603D)"),
            category: String::from_str("Diagnostics"),
            needs_security: true,
            needs_pending: false,
        }
    } else if index == 2 {
        RoutineInfo {
            routine_id: routine::POWER_OVERRIDE,
            name: String::from_str("IMC Power Override"),
            description: String::from_str("Override IMC power state (0x6043)"),
            category: String::from_str("Diagnostics"),
            needs_security: true,
            needs_pending: false,
        }
    } else if index == 3 {
        RoutineInfo {
            routine_id: routine::CONFIGURE_LINUX,
            name: String::from_str("Configure Linux to Hardware"),
            description: String::from_str("Reconfigure IMC Linux environment (0x6038)"),
            category: String::from_str("Configuration"),
            needs_security: true,
            needs_pending: true,
        }
    } else if index == 4 {
        RoutineInfo {
            routine_id: routine::VIN_LEARN,
            name: String::from_str("VIN Learn"),
            description: String::from_str("Learn VIN to ECU (0x0404)"),
            category: String::from_str("Configuration"),
            needs_security: false,
            needs_pending: false,
        }
    } else if index == 5 {
        RoutineInfo {
            routine_id: routine::RETRIEVE_CCF,
            name: String::from_str("Retrieve CCF"),
            description: String::from_str("Retrieve Central Configuration (0x0E00)"),
            category: String::from_str("Configuration"),
            needs_security: false,
            needs_pending: true,
        }
    } else if index == 6 {
        RoutineInfo {
            routine_id: routine::REPORT_CCF,
            name: String::from_str("Report CCF"),
            description: String::from_str("Report Central Configuration (0x0E01)"),
            category: String::from_str("Configuration"),
            needs_security: false,
            needs_pending: true,
        }
    } else if index == 7 {
        RoutineInfo {
            routine_id: routine::LIST_CCF,
            name: String::from_str("List CCF"),
            description: String::from_str("List Central Configuration (0x0E02)"),
            category: String::from_str("Configuration"),
            needs_security: false,
            needs_pending: true,
        }
    } else if index == 8 {
        RoutineInfo {
            routine_id: routine::DVD_RECOVER,
            name: String::from_str("Recover Locked DVD Region"),
            description: String::from_str("Recover locked DVD region (0x603F)"),
            category: String::from_str("Recovery"),
            needs_security: true,
            needs_pending: false,
        }
    } else if index == 9 {
        RoutineInfo {
            routine_id: routine::RESET_PIN,
            name: String::from_str("Reset Customer Pin"),
            description: String::from_str("Reset customer PIN code (0x6042)"),
            category: String::from_str("Recovery"),
            needs_security: true,
            needs_pending: false,
        }
    } else if index == 10 {
        RoutineInfo {
            routine_id: routine::FAN_CONTROL,
            name: String::from_str("Control Auxiliary Fan"),
            description: String::from_str("Control auxiliary fan (0x6041)"),
            category: String::from_str("Advanced"),
            needs_security: true,
            needs_pending: false,
        }
    } else if index == 11 {
        RoutineInfo {
            routine_id: routine::GEN_KEY,
            name: String::from_str("Generate Key"),
            description: String::from_str("Generate cryptographic key (0x6045)"),
            category: String::from_str("Advanced"),
            needs_security: true,
            needs_pending: false,
        }
    } else {
        RoutineInfo {
            routine_id: routine::SHARED_SECRET,
            name: String::from_str("Shared Secret"),
            description: String::from_str("Compute shared secret (0x6046)"),
            category: String::from_str("Advanced"),
            needs_security: true,
            needs_pending: false,
        }
    }
}

/// The routines that the host knows, in the order of the catalog.
pub fn list_routines() -> (list: Vec<RoutineInfo>)
    ensures
        list@.len() == ROUTINE_COUNT,
        forall|i: int| 0 <= i < ROUTINE_COUNT ==> (#[trigger] list@[i]).row() == catalog_row(i),
{
    let mut list: Vec<RoutineInfo> = Vec::new();
    let mut i: usize = 0;
    while i < ROUTINE_COUNT
        invariant
            i <= ROUTINE_COUNT,
            list@.len() == i,
            forall|k: int| 0 <= k < i ==> (#[trigger] list@[k]).row() == catalog_row(k),
        decreases ROUTINE_COUNT - i,
    {
        list.push(catalog_entry(i));
        i += 1;
    }
    list
}

/// The catalog entry of a routine; none for a routine that the catalog
/// does not hold.
pub fn find_routine_meta(routine_id: u16) -> (found: Option<RoutineInfo>)
    ensures
        match catalog_index(routine_id) {
            Some(i) => found is Some && found->Some_0.row() == catalog_row(i),
            None => found is None,
        },
{
    let index: Option<usize> = match routine_id {
        0x603E => Some(0),
        0x603D => Some(1),
        0x6043 => Some(2),
        0x6038 => Some(3),
        0x0404 => Some(4),
        0x0E00 => Some(5),
        0x0E01 => Some(6),
        0x0E02 => Some(7),
        0x603F => Some(8),
        0x6042 => Some(9),
        0x6041 => Some(10),
        0x6045 => Some(11),
        0x6046 => Some(12),
        _ => None,
    };
    match index {
        Some(i) => Some(catalog_entry(i)),
        None => None,
    }
}

/// Whether a routine runs only after the security access; a routine
/// outside the catalog does not.
pub open spec fn routine_needs_security(routine_id: u16) -> bool {
    match catalog_index(routine_id) {
        Some(i) => catalog_row(i).needs_security,
        None => false,
    }
}

/// Whether a routine may answer that its response is pending; a routine
/// outside the catalog does not.
pub open spec fn routine_needs_pending(routine_id: u16) -> bool {
    match catalog_index(routine_id) {
        Some(i) => catalog_row(i).needs_pending,
        None => false,
    }
}

/// What a routine needs before it runs: the security access, and patience
/// for a pending response.
pub fn routine_needs(routine_id: u16) -> (needs: (bool, bool))
    ensures
        needs.0 == routine_needs_security(routine_id),
        needs.1 == routine_needs_pending(routine_id),
{
    match find_routine_meta(routine_id) {
        Some(meta) => (meta.needs_security, meta.needs_pending),
        None => (false, false),
    }
}

} // verus!
