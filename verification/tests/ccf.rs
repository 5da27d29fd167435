use uds_host::commands::ccf::{
    ccf_option_name, compare_ccf_blocks, count_mismatches, decode_ccf_value, parse_ccf_entries,
    CcfDecodeTable, CcfLabel, CcfOption, CCF_HEADER_LEN, CCF_OPTION_COUNT, IMC_CCF_OPTION_IDS,
};
use uds_host::commands::EcuInfoEntry;

fn pairs(entries: &[EcuInfoEntry]) -> Vec<(String, String)> {
    entries
        .iter()
        .map(|e| {
            assert_eq!(e.did_hex, "CCF");
            assert_eq!(e.category, "config");
            assert!(e.error.is_none());
            (e.label.clone(), e.value.clone().unwrap())
        })
        .collect()
}

fn pair(label: &str, value: &str) -> (String, String) {
    (label.to_string(), value.to_string())
}

#[test]
fn ccf_report_of_empty_data() {
    assert_eq!(
        pairs(&parse_ccf_entries(&[])),
        vec![pair("CCF Status", "No configuration data")]
    );
}

#[test]
fn ccf_report_grows_with_the_data() {
    assert_eq!(
        pairs(&parse_ccf_entries(&[0x01])),
        vec![
            pair("CCF Raw Data", "01"),
            pair("CCF Length", "1 bytes"),
            pair("CCF Status Byte", "0x01"),
        ]
    );
    assert_eq!(
        pairs(&parse_ccf_entries(&[0x01, 0x02])),
        vec![
            pair("CCF Raw Data", "01 02"),
            pair("CCF Length", "2 bytes"),
            pair("CCF Status Byte", "0x01"),
            pair("Market/Region", "North America (NA) (0x02)"),
        ]
    );
    assert_eq!(
        pairs(&parse_ccf_entries(&[0xA0, 0x09, 0x03])),
        vec![
            pair("CCF Raw Data", "A0 09 03"),
            pair("CCF Length", "3 bytes"),
            pair("CCF Status Byte", "0xA0"),
            pair("Market/Region", "Unknown (0x09)"),
            pair("Language", "German (0x03)"),
        ]
    );
    assert_eq!(
        pairs(&parse_ccf_entries(&[0x00, 0x01, 0x0C, 0x89, 0xFF])),
        vec![
            pair("CCF Raw Data", "00 01 0C 89 FF"),
            pair("CCF Length", "5 bytes"),
            pair("CCF Status Byte", "0x00"),
            pair("Market/Region", "Europe (EU) (0x01)"),
            pair("Language", "Arabic (0x0C)"),
            pair("Features", "Navigation, Bluetooth, Surround Camera (0x89)"),
        ]
    );
}

#[test]
fn ccf_report_names() {
    let markets = [
        "Unknown",
        "Europe (EU)",
        "North America (NA)",
        "China (CN)",
        "Middle East (ME)",
        "Asia Pacific (AP)",
        "Japan (JP)",
        "Korea (KR)",
        "Unknown",
    ];
    for (byte, name) in markets.iter().enumerate() {
        let report = pairs(&parse_ccf_entries(&[0, byte as u8]));
        assert_eq!(report[3].1, format!("{} (0x{:02X})", name, byte));
    }
    let languages = [
        "Unknown", "English", "French", "German", "Spanish", "Italian", "Portuguese", "Dutch",
        "Russian", "Chinese", "Japanese", "Korean", "Arabic", "Unknown",
    ];
    for (byte, name) in languages.iter().enumerate() {
        let report = pairs(&parse_ccf_entries(&[0, 0, byte as u8]));
        assert_eq!(report[4].1, format!("{} (0x{:02X})", name, byte));
    }
    let report = pairs(&parse_ccf_entries(&[0, 0, 0, 0x00]));
    assert_eq!(report[5].1, "None (0x00)");
    let report = pairs(&parse_ccf_entries(&[0, 0, 0, 0xFF]));
    assert_eq!(
        report[5].1,
        "Navigation, DAB Radio, DVD, Bluetooth, WiFi, USB Media, Rear Camera, Surround Camera (0xFF)"
    );
    let report = pairs(&parse_ccf_entries(&[0, 0, 0, 0x50]));
    assert_eq!(report[5].1, "WiFi, Rear Camera (0x50)");
}

#[test]
fn ccf_report_of_long_data() {
    let data: Vec<u8> = (0..300).map(|i| i as u8).collect();
    let report = pairs(&parse_ccf_entries(&data));
    assert_eq!(report.len(), 6);
    assert_eq!(report[1].1, "300 bytes");
    assert_eq!(report[0].1.len(), 300 * 3 - 1);
    assert!(report[0].1.starts_with("00 01 02 03"));
    assert!(report[0].1.ends_with("2A 2B"));
}

fn table() -> CcfDecodeTable {
    CcfDecodeTable {
        options: vec![
            CcfOption {
                option_id: 1,
                name: Some("Vehicle Type".to_string()),
                labels: vec![
                    CcfLabel { value: 0, label: "X260".to_string() },
                    CcfLabel { value: 5, label: "X760".to_string() },
                    CcfLabel { value: 5, label: "second entry".to_string() },
                ],
            },
            CcfOption { option_id: 2, name: None, labels: vec![CcfLabel { value: 1, label: "Fitted".to_string() }] },
            CcfOption { option_id: 3, name: Some("Doors".to_string()), labels: Vec::new() },
            CcfOption { option_id: 1, name: Some("shadowed".to_string()), labels: Vec::new() },
        ],
    }
}

#[test]
fn ccf_values_are_decoded() {
    let t = table();
    assert_eq!(decode_ccf_value(&t, 1, 0), "X260 (0x00)");
    assert_eq!(decode_ccf_value(&t, 1, 5), "X760 (0x05)");
    assert_eq!(decode_ccf_value(&t, 1, 7), "Vehicle Type: 0x07 (unknown)");
    assert_eq!(decode_ccf_value(&t, 2, 1), "Fitted (0x01)");
    assert_eq!(decode_ccf_value(&t, 2, 0xAB), "0xAB");
    assert_eq!(decode_ccf_value(&t, 3, 4), "Doors: 0x04 (unknown)");
    assert_eq!(decode_ccf_value(&t, 99, 0x0F), "0x0F");
    assert_eq!(ccf_option_name(&t, 1), "Vehicle Type");
    assert_eq!(ccf_option_name(&t, 2), "Option 2");
    assert_eq!(ccf_option_name(&t, 3), "Doors");
    assert_eq!(ccf_option_name(&t, 119), "Option 119");
    let empty = CcfDecodeTable { options: Vec::new() };
    assert_eq!(decode_ccf_value(&empty, 1, 0), "0x00");
    assert_eq!(ccf_option_name(&empty, 65535), "Option 65535");
}

fn block(values: &[(u16, u8)], len: usize) -> Vec<u8> {
    let mut bytes = vec![0u8; len];
    for (id, value) in values {
        bytes[CCF_HEADER_LEN + *id as usize] = *value;
    }
    bytes
}

#[test]
fn ccf_comparison_rows() {
    assert_eq!(CCF_HEADER_LEN, 21);
    assert_eq!(CCF_OPTION_COUNT, 73);
    assert_eq!(IMC_CCF_OPTION_IDS.len(), 73);
    assert_eq!(IMC_CCF_OPTION_IDS[0], 1);
    assert_eq!(IMC_CCF_OPTION_IDS[72], 119);
    let t = table();
    let gwm = Some(block(&[(1, 5), (2, 1), (3, 4)], 150));
    let bcm = Some(block(&[(1, 5), (2, 0), (3, 4)], 150));
    // The third block ends before the third option
    let imc = Some(block(&[(1, 0), (2, 1)], CCF_HEADER_LEN + 3));
    let entries = compare_ccf_blocks(&t, &gwm, &bcm, &imc);
    assert_eq!(entries.len(), 73);
    for (entry, id) in entries.iter().zip(IMC_CCF_OPTION_IDS.iter()) {
        assert_eq!(entry.option_id, *id);
    }
    assert_eq!(entries[0].name, "Vehicle Type");
    assert_eq!(entries[0].gwm.as_deref(), Some("X760 (0x05)"));
    assert_eq!(entries[0].bcm.as_deref(), Some("X760 (0x05)"));
    assert_eq!(entries[0].imc.as_deref(), Some("X260 (0x00)"));
    assert!(entries[0].mismatch);
    assert_eq!(entries[1].name, "Option 2");
    assert_eq!(entries[1].gwm.as_deref(), Some("Fitted (0x01)"));
    assert_eq!(entries[1].bcm.as_deref(), Some("0x00"));
    assert_eq!(entries[1].imc.as_deref(), Some("Fitted (0x01)"));
    assert!(entries[1].mismatch);
    assert_eq!(entries[2].name, "Doors");
    assert_eq!(entries[2].gwm.as_deref(), Some("Doors: 0x04 (unknown)"));
    assert_eq!(entries[2].bcm.as_deref(), Some("Doors: 0x04 (unknown)"));
    assert_eq!(entries[2].imc, None);
    assert!(!entries[2].mismatch);
    assert_eq!(entries[3].option_id, 4);
    assert_eq!(entries[3].gwm.as_deref(), Some("0x00"));
    assert!(!entries[3].mismatch);
    assert_eq!(count_mismatches(&entries), 2);
}

#[test]
fn ccf_comparison_with_missing_blocks() {
    let t = table();
    let only = Some(block(&[(1, 5)], 150));
    let entries = compare_ccf_blocks(&t, &None, &only, &None);
    assert_eq!(entries.len(), 73);
    assert!(entries.iter().all(|e| e.gwm.is_none() && e.imc.is_none() && !e.mismatch));
    assert_eq!(entries[0].bcm.as_deref(), Some("X760 (0x05)"));
    assert_eq!(count_mismatches(&entries), 0);
    let none = compare_ccf_blocks(&t, &None, &None, &None);
    assert!(none.iter().all(|e| e.gwm.is_none() && e.bcm.is_none() && e.imc.is_none()));
    // Two blocks that differ in the last option only
    let a = Some(block(&[(119, 1)], 21 + 120));
    let b = Some(block(&[(119, 2)], 21 + 120));
    let entries = compare_ccf_blocks(&t, &a, &None, &b);
    assert_eq!(count_mismatches(&entries), 1);
    assert!(entries[72].mismatch);
    assert_eq!(entries[72].bcm, None);
}
