//! The connection and the bench mode: what is decided before and after the
//! adapter is touched.

use vstd::prelude::*;
use vstd::string::*;
use crate::commands::{BenchModeStatus, DeviceInfo, J2534DeviceEntry};
use crate::ecu_emulator::{EcuEmulatorManager, EcuId};
use crate::j2534::device::DeviceVersion;
use crate::j2534::types::CAN_11BIT_MASK;
use crate::j2534::Channel;
use crate::uds::services::ecu_addr;

verus! {

/// How long the bench broadcasts before it calls the infotainment module,
/// in rounds of the broadcast table.
pub const WAKE_BROADCAST_ROUNDS: u32 = 50;

/// The pause between two rounds of the broadcast, in milliseconds.
pub const BROADCAST_PAUSE_MS: u32 = 100;

/// How long the write of one broadcast frame may take, in milliseconds.
pub const BROADCAST_WRITE_MS: u32 = 50;

/// The ECUs that the texts of `names` name, in the order of the list; a
/// text that names none is passed over.
pub open spec fn named_ecus(names: Seq<String>) -> Seq<EcuId>
    decreases names.len(),
{
    if names.len() == 0 {
        Seq::<EcuId>::empty()
    } else {
        let head = named_ecus(names.drop_last());
        if EcuId::Bcm.named_by(names.last()@) {
            head.push(EcuId::Bcm)
        } else if EcuId::Gwm.named_by(names.last()@) {
            head.push(EcuId::Gwm)
        } else if EcuId::Ipc.named_by(names.last()@) {
            head.push(EcuId::Ipc)
        } else {
            head
        }
    }
}

/// Reads the list of ECUs that the bench mode is to stand in for.
fn ecus_of(names: &Vec<String>) -> (ecus: Vec<EcuId>)
    ensures
        ecus@ == named_ecus(names@),
{
    let n = names.len();
    let mut ecus: Vec<EcuId> = Vec::new();
    let mut i: usize = 0;
    assert(names@.subrange(0, 0) =~= Seq::<String>::empty());
    while i < n
        invariant
            n == names@.len(),
            i <= n,
            ecus@ == named_ecus(names@.subrange(0, i as int)),
        decreases n - i,
    {
        assert(names@.subrange(0, i + 1).drop_last() =~= names@.subrange(0, i as int));
        match EcuId::from_str(names[i].as_str()) {
            Some(ecu) => {
                ecus.push(ecu);
            },
            None => {},
        }
        i += 1;
    }
    assert(names@.subrange(0, n as int) =~= names@);
    ecus
}

/// The ECUs that the bench mode stands in for: those that `ecus` names,
/// or the body control module where no list is given. A list that names no
/// ECU is refused.
pub fn parse_ecu_list(ecus: Option<Vec<String>>) -> (outcome: Result<Vec<EcuId>, String>)
    ensures
        match ecus {
            Some(names) => if named_ecus(names@).len() == 0 {
                outcome is Err && outcome->Err_0@ == "No valid ECU IDs specified"@
            } else {
                outcome is Ok && outcome->Ok_0@ == named_ecus(names@)
            },
            None => outcome is Ok && outcome->Ok_0@ == seq![EcuId::Bcm],
        },
{
    match ecus {
        Some(names) => {
            let ids = ecus_of(&names);
            if ids.len() == 0 {
                Err(String::from_str("No valid ECU IDs specified"))
            } else {
                Ok(ids)
            }
        },
        None => {
            let mut ids: Vec<EcuId> = Vec::new();
            ids.push(EcuId::Bcm);
            assert(ids@ =~= seq![EcuId::Bcm]);
            Ok(ids)
        },
    }
}

/// The lower-case names of a list of ECUs.
pub open spec fn keys_of(ecus: Seq<EcuId>) -> Seq<Seq<char>> {
    ecus.map_values(|e: EcuId| e.spec_key())
}

/// The views of a list of texts.
pub open spec fn texts(list: Seq<String>) -> Seq<Seq<char>> {
    list.map_values(|s: String| s@)
}

/// Whether the bench mode is on, and for which ECUs: on where there is an
/// emulator, with the lower-case names of its ECUs.
pub fn get_bench_mode_status(emulator: Option<&EcuEmulatorManager>) -> (status: BenchModeStatus)
    ensures
        status.enabled == emulator is Some,
        texts(status.emulated_ecus@) == match emulator {
            Some(manager) => keys_of(manager.ecus()),
            None => Seq::<Seq<char>>::empty(),
        },
{
    match emulator {
        Some(manager) => {
            let ecus = manager.emulated_ecus();
            let n = ecus.len();
            let mut names: Vec<String> = Vec::new();
            let mut i: usize = 0;
            while i < n
                invariant
                    n == ecus@.len(),
                    i <= n,
                    names@.len() == i,
                    forall|k: int| 0 <= k < i ==> (#[trigger] names@[k])@ == ecus@[k].spec_key(),
                decreases n - i,
            {
                names.push(String::from_str(ecus[i].key()));
                i += 1;
            }
            assert(texts(names@) =~= keys_of(ecus@));
            BenchModeStatus { enabled: true, emulated_ecus: names }
        },
        None => {
            let names: Vec<String> = Vec::new();
            assert(texts(names@) =~= Seq::<Seq<char>>::empty());
            BenchModeStatus { enabled: false, emulated_ecus: names }
        },
    }
}

/// The address pairs of the four ECUs, each as the address that the tester
/// sends to and the address that the ECU answers from, in the order in
/// which their filters are installed: infotainment module, body control
/// module, gateway, instrument cluster.
pub fn ecu_filter_pairs() -> (pairs: Vec<(u32, u32)>)
    ensures
        pairs@ == seq![
            (0x7B3u32, 0x7BBu32),
            (0x726u32, 0x72Eu32),
            (0x716u32, 0x71Eu32),
            (0x720u32, 0x728u32),
        ],
{
    let pairs = vec![
        (ecu_addr::IMC_TX, ecu_addr::IMC_RX),
        (ecu_addr::BCM_TX, ecu_addr::BCM_RX),
        (ecu_addr::GWM_TX, ecu_addr::GWM_RX),
        (ecu_addr::IPC_TX, ecu_addr::IPC_RX),
    ];
    assert(pairs@ =~= seq![
        (0x7B3u32, 0x7BBu32),
        (0x726u32, 0x72Eu32),
        (0x716u32, 0x71Eu32),
        (0x720u32, 0x728u32),
    ]);
    pairs
}

/// Installs one flow-control filter for each of the four ECUs, in the
/// order of `ecu_filter_pairs`, and gives the identifiers of the filters
/// in that order. The first filter that the channel refuses ends it with
/// the channel's text; whether a filter is taken is the channel's to say.
pub fn setup_ecu_filters<C: Channel>(channel: &C) -> (outcome: Result<Vec<u32>, String>)
    ensures
        outcome matches Ok(filters) ==> filters@.len() == 4,
{
    let pairs = ecu_filter_pairs();
    let mut filters: Vec<u32> = Vec::new();
    let mut i: usize = 0;
    while i < pairs.len()
        invariant
            i <= pairs@.len(),
            pairs@.len() == 4,
            filters@.len() == i,
            forall|k: int|
                0 <= k < pairs@.len() ==> (#[trigger] pairs@[k]).0 <= CAN_11BIT_MASK && pairs@[k].1
                    <= CAN_11BIT_MASK,
        decreases pairs@.len() - i,
    {
        let (tx_id, rx_id) = pairs[i];
        match channel.setup_iso15765_filter(tx_id, rx_id) {
            Ok(filter) => {
                filters.push(filter);
            },
            Err(e) => {
                return Err(e);
            },
        }
        i += 1;
    }
    Ok(filters)
}

/// An adapter of the registry's list, as plain values.
pub open spec fn device_of(adapter: (String, String)) -> (Seq<char>, Seq<char>) {
    (adapter.0@, adapter.1@)
}

/// The adapters to choose from: each with its name and the path of its
/// library.
pub fn discover_devices(adapters: Vec<(String, String)>) -> (devices: Vec<J2534DeviceEntry>)
    ensures
        devices@.len() == adapters@.len(),
        forall|i: int|
            0 <= i < adapters@.len() ==> ((#[trigger] devices@[i]).name@, devices@[i].dll_path@)
                == device_of(adapters@[i]),
{
    let n = adapters.len();
    let mut devices: Vec<J2534DeviceEntry> = Vec::new();
    let mut i: usize = 0;
    while i < n
        invariant
            n == adapters@.len(),
            i <= n,
            devices@.len() == i,
            forall|k: int|
                0 <= k < i ==> ((#[trigger] devices@[k]).name@, devices@[k].dll_path@)
                    == device_of(adapters@[k]),
        decreases n - i,
    {
        devices.push(
            J2534DeviceEntry { name: adapters[i].0.clone(), dll_path: adapters[i].1.clone() },
        );
        i += 1;
    }
    devices
}

/// What a connection reports: the versions of the adapter and the library
/// it was loaded from.
pub fn device_info(version: &DeviceVersion, dll_path: &str) -> (info: DeviceInfo)
    ensures
        info.firmware_version@ == version.firmware@,
        info.dll_version@ == version.dll@,
        info.api_version@ == version.api@,
        info.dll_path@ == dll_path@,
{
    DeviceInfo {
        firmware_version: version.firmware.clone(),
        dll_version: version.dll.clone(),
        api_version: version.api.clone(),
        dll_path: String::from_str(dll_path),
    }
}

/// The text of a connection that found no adapter.
pub open spec fn no_device_text(last_error: Seq<char>) -> Seq<char> {
    "No J2534 device responded. Last error: "@ + last_error
}

/// Says that no adapter answered, with the last failure.
pub fn no_device(last_error: &str) -> (text: String)
    ensures
        text@ == no_device_text(last_error@),
{
    let mut text = String::from_str("No J2534 device responded. Last error: ");
    text.append(last_error);
    text
}

} // verus!
