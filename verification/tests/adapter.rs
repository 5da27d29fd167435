use uds_host::commands::bench::{device_info, discover_devices};
use uds_host::j2534::device::{device_version, version_text};
use uds_host::j2534::dll::{default_mongoose_dll_path, discover_j2534_dlls, registry_path};
use uds_host::text::{hex_string, push_signed_decimal, same_text};

fn entry(name: &str, path: &str) -> (String, String) {
    (name.to_string(), path.to_string())
}

#[test]
fn adapters_are_listed_once() {
    let found = vec![
        entry("Mongoose", "C:\\Drew\\monpj432.dll"),
        entry("Other", "C:\\Other\\other.dll"),
        entry("Mongoose (32)", "c:\\drew\\MONPJ432.DLL"),
        entry("Third", "C:\\Third\\third.dll"),
        entry("Other again", "C:\\Other\\other.dll"),
    ];
    assert_eq!(
        discover_j2534_dlls(found),
        vec![
            entry("Mongoose", "C:\\Drew\\monpj432.dll"),
            entry("Other", "C:\\Other\\other.dll"),
            entry("Third", "C:\\Third\\third.dll"),
        ]
    );
    assert!(discover_j2534_dlls(Vec::new()).is_empty());
}

#[test]
fn adapters_become_devices() {
    let devices = discover_devices(vec![entry("Mongoose", "C:\\Drew\\monpj432.dll")]);
    assert_eq!(devices.len(), 1);
    assert_eq!(devices[0].name, "Mongoose");
    assert_eq!(devices[0].dll_path, "C:\\Drew\\monpj432.dll");
}

#[test]
fn default_adapter_path() {
    assert_eq!(
        default_mongoose_dll_path(),
        r"C:\Program Files (x86)\Drew Technologies, Inc\J2534\MongoosePro JLR\monpj432.dll"
    );
    assert_eq!(registry_path(), r"SOFTWARE\PassThruSupport.04.04");
}

#[test]
fn version_texts_end_at_the_first_zero() {
    let mut buffer = [0u8; 80];
    buffer[..5].copy_from_slice(b"1.2.3");
    buffer[10] = b'x';
    assert_eq!(version_text(&buffer), "1.2.3");
    assert_eq!(version_text(&[0u8; 80]), "");
    assert_eq!(version_text(b"no zero"), "no zero");
    assert_eq!(version_text(&[]), "");
    assert_eq!(version_text(&[0x41, 0xFF, 0x00, 0x42]), "A\u{FFFD}");
    let version = device_version(b"FW 1\0", b"DLL 2\0junk", b"04.04\0");
    assert_eq!(version.firmware, "FW 1");
    assert_eq!(version.dll, "DLL 2");
    assert_eq!(version.api, "04.04");
    let info = device_info(&version, "C:\\Drew\\monpj432.dll");
    assert_eq!(info.firmware_version, "FW 1");
    assert_eq!(info.dll_version, "DLL 2");
    assert_eq!(info.api_version, "04.04");
    assert_eq!(info.dll_path, "C:\\Drew\\monpj432.dll");
}

#[test]
fn hex_text() {
    assert_eq!(hex_string(&[]), "");
    assert_eq!(hex_string(&[0x00]), "00");
    assert_eq!(hex_string(&[0x0A, 0xF0, 0x9B]), "0A F0 9B");
    assert!(same_text("bcm", "bcm"));
    assert!(!same_text("bcm", "BCM"));
}

#[test]
fn numerals_agree_with_std() {
    for byte in 0..=255u8 {
        assert_eq!(hex_string(&[byte]), format!("{:02X}", byte));
        assert_eq!(
            uds_host::commands::format::format_soc(&[byte]),
            format!("{}%", byte)
        );
    }
    for km in [0u32, 9, 10, 99, 100, 12345, 999_999, 1_000_000, 0xFF_FFFF] {
        let bytes = [(km >> 16) as u8, (km >> 8) as u8, km as u8];
        assert_eq!(
            uds_host::commands::format::format_odometer(&bytes),
            format!("{} km", km)
        );
    }
    let bytes: Vec<u8> = (0..=255).collect();
    let expected: Vec<String> = bytes.iter().map(|b| format!("{:02X}", b)).collect();
    assert_eq!(hex_string(&bytes), expected.join(" "));
}

#[test]
fn signed_numerals_for_every_number() {
    for n in [0i64, 1, -1, 9, -9, 10, -10, 215, -40, i64::MAX, i64::MIN, i64::MIN + 1] {
        let mut text = String::from("n=");
        push_signed_decimal(&mut text, n);
        assert_eq!(text, format!("n={}", n));
    }
}
