//! How the data of the known identifiers reads to a person.

use vstd::prelude::*;
use vstd::string::*;
use crate::text::{
    decimal, hex_digit, hex_u8, named_byte, named_text, push_decimal, push_hex_u8,
    push_signed_decimal, signed_decimal, trimmed, utf8_lossy,
};
use crate::uds::services::data_text;

verus! {

/// The text for data that holds nothing to format.
pub open spec fn not_available() -> Seq<char> {
    "N/A"@
}

/// The name of a diagnostic session.
pub open spec fn session_name(session: u8) -> Seq<char> {
    match session {
        0x01 => "Default"@,
        0x02 => "Programming"@,
        0x03 => "Extended"@,
        _ => "Unknown"@,
    }
}

/// The active session: its name and its byte.
pub open spec fn diag_session_text(data: Seq<u8>) -> Seq<char> {
    if data.len() == 0 {
        "Unknown"@
    } else {
        named_byte(session_name(data[0]), data[0])
    }
}

/// The name of a state of the infotainment module.
pub open spec fn imc_status_name(status: u8) -> Seq<char> {
    match status {
        0x00 => "Normal"@,
        0x01 => "Booting"@,
        0x02 => "Shutdown"@,
        0x03 => "Suspend"@,
        0x04 => "Standby"@,
        _ => "Error"@,
    }
}

/// The state of the infotainment module: its name and its byte, or the
/// byte alone where it has no name.
pub open spec fn imc_status_text(data: Seq<u8>) -> Seq<char> {
    if data.len() == 0 {
        "Unknown"@
    } else if data[0] <= 5 {
        named_byte(imc_status_name(data[0]), data[0])
    } else {
        "0x"@ + hex_u8(data[0])
    }
}

/// The number that the first two bytes spell, high byte first; the first
/// byte alone where there is no second.
pub open spec fn raw_voltage(data: Seq<u8>) -> nat
    recommends
        data.len() >= 1,
{
    if data.len() >= 2 {
        (data[0] as nat) * 256 + data[1] as nat
    } else {
        data[0] as nat
    }
}

/// A voltage in tenths of a volt, with one decimal.
pub open spec fn voltage_text(data: Seq<u8>) -> Seq<char> {
    if data.len() == 0 {
        not_available()
    } else {
        decimal(raw_voltage(data) / 10).push('.').push(hex_digit((raw_voltage(data) % 10) as int))
            + " V"@
    }
}

/// A state of charge in percent.
pub open spec fn soc_text(data: Seq<u8>) -> Seq<char> {
    if data.len() == 0 {
        not_available()
    } else {
        decimal(data[0] as nat) + "%"@
    }
}

/// A temperature in degrees Celsius: the byte less forty.
pub open spec fn temp_text(data: Seq<u8>) -> Seq<char> {
    if data.len() == 0 {
        not_available()
    } else {
        signed_decimal(data[0] as int - 40) + " °C"@
    }
}

/// The gateway's battery voltage in hundredths of a volt: six volts and
/// five hundredths for each unit of the byte.
pub open spec fn gwm_centivolts(byte: u8) -> nat {
    600 + 5 * (byte as nat)
}

/// The gateway's battery voltage, with two decimals.
pub open spec fn gwm_voltage_text(data: Seq<u8>) -> Seq<char> {
    if data.len() == 0 {
        not_available()
    } else {
        decimal(gwm_centivolts(data[0]) / 100).push('.').push(
            hex_digit((gwm_centivolts(data[0]) / 10 % 10) as int),
        ).push(hex_digit((gwm_centivolts(data[0]) % 10) as int)) + " V"@
    }
}

/// The distance that the first three bytes spell, most significant first.
pub open spec fn odometer_km(data: Seq<u8>) -> nat
    recommends
        data.len() >= 3,
{
    (data[0] as nat) * 0x1_0000 + (data[1] as nat) * 0x100 + data[2] as nat
}

/// A distance in kilometres.
pub open spec fn odometer_text(data: Seq<u8>) -> Seq<char> {
    if data.len() < 3 {
        not_available()
    } else {
        decimal(odometer_km(data)) + " km"@
    }
}

/// The ways in which the data of an identifier is shown.
#[derive(Debug, Clone, Copy, PartialEq, Eq, Structural)]
pub enum Formatter {
    Text,
    DiagSession,
    ImcStatus,
    Voltage,
    Soc,
    Temp,
    GwmVoltage,
    GwmTemp,
    Odometer,
}

impl Formatter {
    /// What this formatter makes of `data`.
    pub open spec fn text(self, data: Seq<u8>) -> Seq<char> {
        match self {
            Formatter::Text => trimmed(utf8_lossy(data)),
            Formatter::DiagSession => diag_session_text(data),
            Formatter::ImcStatus => imc_status_text(data),
            Formatter::Voltage => voltage_text(data),
            Formatter::Soc => soc_text(data),
            Formatter::Temp => temp_text(data),
            Formatter::GwmVoltage => gwm_voltage_text(data),
            Formatter::GwmTemp => temp_text(data),
            Formatter::Odometer => odometer_text(data),
        }
    }

    /// Formats `data`.
    pub fn apply(self, data: &[u8]) -> (text: String)
        ensures
            text@ == self.text(data@),
    {
        match self {
            Formatter::Text => format_string(data),
            Formatter::DiagSession => format_diag_session(data),
            Formatter::ImcStatus => format_imc_status(data),
            Formatter::Voltage => format_voltage(data),
            Formatter::Soc => format_soc(data),
            Formatter::Temp => format_temp(data),
            Formatter::GwmVoltage => format_gwm_voltage(data),
            Formatter::GwmTemp => format_gwm_temp(data),
            Formatter::Odometer => format_odometer(data),
        }
    }
}

/// The text that the data spells: decoded as UTF-8 and trimmed.
pub fn format_string(data: &[u8]) -> (text: String)
    ensures
        text@ == trimmed(utf8_lossy(data@)),
{
    data_text(data)
}

/// The active diagnostic session.
pub fn format_diag_session(data: &[u8]) -> (text: String)
    ensures
        text@ == diag_session_text(data@),
{
    if data.len() == 0 {
        return String::from_str("Unknown");
    }
    let name = match data[0] {
        0x01 => "Default",
        0x02 => "Programming",
        0x03 => "Extended",
        _ => "Unknown",
    };
    named_text(name, data[0])
}

/// The state of the infotainment module.
pub fn format_imc_status(data: &[u8]) -> (text: String)
    ensures
        text@ == imc_status_text(data@),
{
    if data.len() == 0 {
        return String::from_str("Unknown");
    }
    match data[0] {
        0x00 => named_text("Normal", 0x00),
        0x01 => named_text("Booting", 0x01),
        0x02 => named_text("Shutdown", 0x02),
        0x03 => named_text("Suspend", 0x03),
        0x04 => named_text("Standby", 0x04),
        0x05 => named_text("Error", 0x05),
        other => {
            let mut text = String::from_str("0x");
            push_hex_u8(&mut text, other);
            text
        },
    }
}

fn push_digit(text: &mut String, digit: u64)
    requires
        digit < 10,
    ensures
        final(text)@ == old(text)@.push(hex_digit(digit as int)),
{
    let ghost before = text@;
    push_decimal(text, digit);
    assert(decimal(digit as nat) =~= seq![hex_digit(digit as int)]);
    assert(text@ =~= before.push(hex_digit(digit as int)));
}

/// A battery voltage from tenths of a volt.
pub fn format_voltage(data: &[u8]) -> (text: String)
    ensures
        text@ == voltage_text(data@),
{
    if data.len() == 0 {
        return String::from_str("N/A");
    }
    let raw: u64 = if data.len() >= 2 {
        (data[0] as u64) * 256 + data[1] as u64
    } else {
        data[0] as u64
    };
    let mut text = String::new();
    push_decimal(&mut text, raw / 10);
    text.push('.');
    push_digit(&mut text, raw % 10);
    text.append(" V");
    assert(text@ =~= voltage_text(data@));
    text
}

/// A state of charge in percent.
pub fn format_soc(data: &[u8]) -> (text: String)
    ensures
        text@ == soc_text(data@),
{
    if data.len() == 0 {
        return String::from_str("N/A");
    }
    let mut text = String::new();
    push_decimal(&mut text, data[0] as u64);
    text.append("%");
    assert(text@ =~= soc_text(data@));
    text
}

/// A temperature: the byte less forty degrees.
pub fn format_temp(data: &[u8]) -> (text: String)
    ensures
        text@ == temp_text(data@),
{
    if data.len() == 0 {
        return String::from_str("N/A");
    }
    let mut text = String::new();
    push_signed_decimal(&mut text, data[0] as i64 - 40);
    text.append(" °C");
    assert(text@ =~= temp_text(data@));
    text
}

/// The gateway's battery voltage: six volts and five hundredths for each
/// unit.
pub fn format_gwm_voltage(data: &[u8]) -> (text: String)
    ensures
        text@ == gwm_voltage_text(data@),
{
    if data.len() == 0 {
        return String::from_str("N/A");
    }
    let centivolts: u64 = 600 + 5 * (data[0] as u64);
    let mut text = String::new();
    push_decimal(&mut text, centivolts / 100);
    text.push('.');
    push_digit(&mut text, centivolts / 10 % 10);
    push_digit(&mut text, centivolts % 10);
    text.append(" V");
    assert(text@ =~= gwm_voltage_text(data@));
    text
}

/// The gateway's battery temperature: the byte less forty degrees.
pub fn format_gwm_temp(data: &[u8]) -> (text: String)
    ensures
        text@ == temp_text(data@),
{
    format_temp(data)
}

/// The odometer of the instrument cluster, in kilometres.
pub fn format_odometer(data: &[u8]) -> (text: String)
    ensures
        text@ == odometer_text(data@),
{
    if data.len() < 3 {
        return String::from_str("N/A");
    }
    let d0 = data[0];
    let d1 = data[1];
    let d2 = data[2];
    assert(((d0 as u32) << 16u32) | ((d1 as u32) << 8u32) | (d2 as u32) == (d0 as u32) * 0x1_0000
        + (d1 as u32) * 0x100 + (d2 as u32)) by (bit_vector);
    let km = ((d0 as u32) << 16) | ((d1 as u32) << 8) | (d2 as u32);
    let mut text = String::new();
    push_decimal(&mut text, km as u64);
    text.append(" km");
    assert(text@ =~= odometer_text(data@));
    text
}

/// The name of an identifier, empty where it has none.
pub open spec fn did_label(did_id: u16) -> Seq<char> {
    match did_id {
        0xF190 => "VIN"@,
        0xF111 => "Firmware Part"@,
        0xF188 => "Master RPM Part"@,
        0xD100 => "Diag Session"@,
        0x0202 => "IMC Status"@,
        0x402A => "Battery Voltage"@,
        0x4028 => "Battery SOC"@,
        0x4029 => "Battery Temp"@,
        0x4030 => "Door Status"@,
        0x4032 => "Fuel Level"@,
        _ => ""@,
    }
}

/// The name of an identifier for the log, empty where it has none.
pub fn did_name(did_id: u16) -> (name: &'static str)
    ensures
        name@ == did_label(did_id),
{
    match did_id {
        0xF190 => "VIN",
        0xF111 => "Firmware Part",
        0xF188 => "Master RPM Part",
        0xD100 => "Diag Session",
        0x0202 => "IMC Status",
        0x402A => "Battery Voltage",
        0x4028 => "Battery SOC",
        0x4029 => "Battery Temp",
        0x4030 => "Door Status",
        0x4032 => "Fuel Level",
        _ => "",
    }
}

} // verus!
