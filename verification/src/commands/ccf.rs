//! The central configuration: how its bytes read, and how the blocks of
//! three ECUs compare option by option.

use vstd::prelude::*;
use vstd::string::*;
use crate::commands::{rows, text_view, CcfCompareEntry, EcuInfoEntry, InfoRow};
use crate::text::{
    decimal, hex_bytes, hex_string, hex_u8, joined, named_byte, named_text, push_decimal,
    push_hex_u8, push_joined, views,
};
use crate::uds::services::{byte_at, has_bit, set_bit_names};

verus! {

/// Length of the header that precedes the options in a configuration block.
pub const CCF_HEADER_LEN: usize = 21;

/// The number of options that the comparison covers.
pub const CCF_OPTION_COUNT: usize = 73;

/// The options that the infotainment module lists.
pub const IMC_CCF_OPTION_IDS: [u16; 73] = [
    1, 2, 3, 4, 6, 7, 8, 9, 10, 11, 14, 15, 16, 17, 18, 19, 21, 22, 23, 25, 27, 29, 30,
    31, 32, 33, 34, 35, 36, 65, 67, 68, 69, 70, 71, 72, 73, 77, 79, 80, 81, 82, 83, 84,
    86, 87, 88, 89, 90, 91, 92, 93, 94, 95, 96, 97, 98, 99, 100, 101, 102, 105, 107, 108,
    109, 110, 111, 112, 113, 114, 116, 117, 119,
];

/// A row of the configuration report.
pub open spec fn config_row(label: Seq<char>, value: Seq<char>) -> InfoRow {
    InfoRow { label, did_hex: "CCF"@, value: Some(value), error: None, category: "config"@ }
}

/// The market that a configuration byte names.
pub open spec fn market_name(market: u8) -> Seq<char> {
    match market {
        0x01 => "Europe (EU)"@,
        0x02 => "North America (NA)"@,
        0x03 => "China (CN)"@,
        0x04 => "Middle East (ME)"@,
        0x05 => "Asia Pacific (AP)"@,
        0x06 => "Japan (JP)"@,
        0x07 => "Korea (KR)"@,
        _ => "Unknown"@,
    }
}

/// The language that a configuration byte names.
pub open spec fn language_name(language: u8) -> Seq<char> {
    match language {
        0x01 => "English"@,
        0x02 => "French"@,
        0x03 => "German"@,
        0x04 => "Spanish"@,
        0x05 => "Italian"@,
        0x06 => "Portuguese"@,
        0x07 => "Dutch"@,
        0x08 => "Russian"@,
        0x09 => "Chinese"@,
        0x0A => "Japanese"@,
        0x0B => "Korean"@,
        0x0C => "Arabic"@,
        _ => "Unknown"@,
    }
}

/// The feature that a bit of the feature byte stands for, lowest bit first.
pub open spec fn feature_name(bit: int) -> Seq<char> {
    if bit == 0 {
        "Navigation"@
    } else if bit == 1 {
        "DAB Radio"@
    } else if bit == 2 {
        "DVD"@
    } else if bit == 3 {
        "Bluetooth"@
    } else if bit == 4 {
        "WiFi"@
    } else if bit == 5 {
        "USB Media"@
    } else if bit == 6 {
        "Rear Camera"@
    } else {
        "Surround Camera"@
    }
}

/// The features that a byte switches on, or `None`, then the byte.
pub open spec fn features_text(features: u8) -> Seq<char> {
    let names = set_bit_names(features, 8, |bit: int| feature_name(bit));
    if names.len() == 0 {
        named_byte("None"@, features)
    } else {
        named_byte(joined(names, ", "@), features)
    }
}

/// One row where the condition holds, none where it does not.
pub open spec fn row_if(present: bool, row: InfoRow) -> Seq<InfoRow> {
    if present {
        seq![row]
    } else {
        Seq::<InfoRow>::empty()
    }
}

/// The report on configuration data: the bytes and their number, then the
/// status byte, the market, the language and the features, as far as the
/// data reaches. Empty data gives the one row that says so.
pub open spec fn ccf_rows(data: Seq<u8>) -> Seq<InfoRow> {
    if data.len() == 0 {
        seq![config_row("CCF Status"@, "No configuration data"@)]
    } else {
        seq![
            config_row("CCF Raw Data"@, hex_bytes(data)),
            config_row("CCF Length"@, decimal(data.len()) + " bytes"@),
            config_row("CCF Status Byte"@, "0x"@ + hex_u8(data[0])),
        ] + row_if(
            data.len() >= 2,
            config_row("Market/Region"@, named_byte(market_name(data[1]), data[1])),
        ) + row_if(
            data.len() >= 3,
            config_row("Language"@, named_byte(language_name(data[2]), data[2])),
        ) + row_if(data.len() >= 4, config_row("Features"@, features_text(data[3])))
    }
}

fn config_entry(label: &str, value: String) -> (entry: EcuInfoEntry)
    ensures
        entry.row() == config_row(label@, value@),
{
    EcuInfoEntry {
        label: String::from_str(label),
        did_hex: String::from_str("CCF"),
        value: Some(value),
        error: None,
        category: String::from_str("config"),
    }
}

fn market(byte: u8) -> (name: &'static str)
    ensures
        name@ == market_name(byte),
{
    match byte {
        0x01 => "Europe (EU)",
        0x02 => "North America (NA)",
        0x03 => "China (CN)",
        0x04 => "Middle East (ME)",
        0x05 => "Asia Pacific (AP)",
        0x06 => "Japan (JP)",
        0x07 => "Korea (KR)",
        _ => "Unknown",
    }
}

fn language(byte: u8) -> (name: &'static str)
    ensures
        name@ == language_name(byte),
{
    match byte {
        0x01 => "English",
        0x02 => "French",
        0x03 => "German",
        0x04 => "Spanish",
        0x05 => "Italian",
        0x06 => "Portuguese",
        0x07 => "Dutch",
        0x08 => "Russian",
        0x09 => "Chinese",
        0x0A => "Japanese",
        0x0B => "Korean",
        0x0C => "Arabic",
        _ => "Unknown",
    }
}

fn feature(bit: u8) -> (name: &'static str)
    ensures
        name@ == feature_name(bit as int),
{
    if bit == 0 {
        "Navigation"
    } else if bit == 1 {
        "DAB Radio"
    } else if bit == 2 {
        "DVD"
    } else if bit == 3 {
        "Bluetooth"
    } else if bit == 4 {
        "WiFi"
    } else if bit == 5 {
        "USB Media"
    } else if bit == 6 {
        "Rear Camera"
    } else {
        "Surround Camera"
    }
}

fn features(byte: u8) -> (text: String)
    ensures
        text@ == features_text(byte),
{
    let mut names: Vec<String> = Vec::new();
    let mut bit: u8 = 0;
    while bit < 8
        invariant
            bit <= 8,
            views(names@) == set_bit_names(byte, bit as int, |b: int| feature_name(b)),
        decreases 8 - bit,
    {
        if has_bit(byte, bit) {
            names.push(String::from_str(feature(bit)));
            assert(views(names@) =~= set_bit_names(byte, bit + 1, |b: int| feature_name(b)));
        }
        bit += 1;
    }
    if names.len() == 0 {
        named_text("None", byte)
    } else {
        let mut list = String::new();
        push_joined(&mut list, &names, ", ");
        assert(list@ =~= joined(views(names@), ", "@));
        named_text(list.as_str(), byte)
    }
}

/// Reports on configuration data, row by row.
pub fn parse_ccf_entries(data: &[u8]) -> (entries: Vec<EcuInfoEntry>)
    ensures
        rows(entries@) == ccf_rows(data@),
{
    let mut entries: Vec<EcuInfoEntry> = Vec::new();
    if data.len() == 0 {
        entries.push(config_entry("CCF Status", String::from_str("No configuration data")));
        assert(rows(entries@) =~= ccf_rows(data@));
        return entries;
    }
    entries.push(config_entry("CCF Raw Data", hex_string(data)));
    let mut length = String::new();
    push_decimal(&mut length, data.len() as u64);
    length.append(" bytes");
    assert(length@ =~= decimal(data@.len()) + " bytes"@);
    entries.push(config_entry("CCF Length", length));
    let mut status = String::from_str("0x");
    push_hex_u8(&mut status, data[0]);
    entries.push(config_entry("CCF Status Byte", status));
    let ghost base = rows(entries@);
    assert(base =~= seq![
        config_row("CCF Raw Data"@, hex_bytes(data@)),
        config_row("CCF Length"@, decimal(data@.len()) + " bytes"@),
        config_row("CCF Status Byte"@, "0x"@ + hex_u8(data@[0])),
    ]);
    if data.len() >= 2 {
        entries.push(config_entry("Market/Region", named_text(market(data[1]), data[1])));
    }
    let ghost with_market = rows(entries@);
    assert(with_market =~= base + row_if(
        data@.len() >= 2,
        config_row("Market/Region"@, named_byte(market_name(data@[1]), data@[1])),
    ));
    if data.len() >= 3 {
        entries.push(config_entry("Language", named_text(language(data[2]), data[2])));
    }
    let ghost with_language = rows(entries@);
    assert(with_language =~= with_market + row_if(
        data@.len() >= 3,
        config_row("Language"@, named_byte(language_name(data@[2]), data@[2])),
    ));
    if data.len() >= 4 {
        entries.push(config_entry("Features", features(data[3])));
    }
    assert(rows(entries@) =~= with_language + row_if(
        data@.len() >= 4,
        config_row("Features"@, features_text(data@[3])),
    ));
    entries
}

/// The label of one value of an option.
#[derive(Debug, Clone)]
pub struct CcfLabel {
    pub value: u8,
    pub label: String,
}

/// What the decode table knows of one option: its name, and the labels of
/// its values.
#[derive(Debug, Clone)]
pub struct CcfOption {
    pub option_id: u16,
    pub name: Option<String>,
    pub labels: Vec<CcfLabel>,
}

/// The decode table of the central configuration. Where an option or a
/// value stands in it more than once, the first entry counts.
#[derive(Debug, Clone)]
pub struct CcfDecodeTable {
    pub options: Vec<CcfOption>,
}

/// The position of the first entry for `option_id`.
pub open spec fn option_index(options: Seq<CcfOption>, option_id: u16) -> Option<int>
    decreases options.len(),
{
    if options.len() == 0 {
        None
    } else if options[0].option_id == option_id {
        Some(0int)
    } else {
        match option_index(options.drop_first(), option_id) {
            Some(i) => Some(i + 1),
            None => None,
        }
    }
}

/// The position of the first label for `value`.
pub open spec fn label_index(labels: Seq<CcfLabel>, value: u8) -> Option<int>
    decreases labels.len(),
{
    if labels.len() == 0 {
        None
    } else if labels[0].value == value {
        Some(0int)
    } else {
        match label_index(labels.drop_first(), value) {
            Some(i) => Some(i + 1),
            None => None,
        }
    }
}

/// How a value of an option reads: its label and the byte; where the table
/// has no label for it, the option's name with the byte marked unknown;
/// where the table does not name the option, the byte alone.
pub open spec fn decoded_value(table: CcfDecodeTable, option_id: u16, raw_value: u8) -> Seq<char> {
    match option_index(table.options@, option_id) {
        Some(i) => {
            let option = table.options@[i];
            match label_index(option.labels@, raw_value) {
                Some(k) => named_byte(option.labels@[k].label@, raw_value),
                None => match option.name {
                    Some(name) => name@ + ": 0x"@ + hex_u8(raw_value) + " (unknown)"@,
                    None => "0x"@ + hex_u8(raw_value),
                },
            }
        },
        None => "0x"@ + hex_u8(raw_value),
    }
}

/// The name of an option: the table's, or `Option` and the number.
pub open spec fn option_name(table: CcfDecodeTable, option_id: u16) -> Seq<char> {
    match option_index(table.options@, option_id) {
        Some(i) => match table.options@[i].name {
            Some(name) => name@,
            None => "Option "@ + decimal(option_id as nat),
        },
        None => "Option "@ + decimal(option_id as nat),
    }
}

fn find_option(table: &CcfDecodeTable, option_id: u16) -> (found: Option<usize>)
    ensures
        found matches Some(k) ==> k < table.options@.len() && option_index(
            table.options@,
            option_id,
        ) == Some(k as int),
        found is None ==> option_index(table.options@, option_id) is None,
{
    let n = table.options.len();
    let mut i: usize = n;
    let mut found: Option<usize> = None;
    while i > 0
        invariant
            n == table.options@.len(),
            i <= n,
            match option_index(table.options@.subrange(i as int, n as int), option_id) {
                Some(k) => 0 <= k < n - i && found == Some((i + k) as usize),
                None => found is None,
            },
        decreases i,
    {
        i -= 1;
        assert(table.options@.subrange(i as int, n as int).drop_first()
            =~= table.options@.subrange(i + 1, n as int));
        if table.options[i].option_id == option_id {
            found = Some(i);
        }
    }
    assert(table.options@.subrange(0, n as int) =~= table.options@);
    found
}

fn find_label(labels: &Vec<CcfLabel>, value: u8) -> (found: Option<usize>)
    ensures
        found matches Some(k) ==> k < labels@.len() && label_index(labels@, value) == Some(
            k as int,
        ),
        found is None ==> label_index(labels@, value) is None,
{
    let n = labels.len();
    let mut i: usize = n;
    let mut found: Option<usize> = None;
    while i > 0
        invariant
            n == labels@.len(),
            i <= n,
            match label_index(labels@.subrange(i as int, n as int), value) {
                Some(k) => 0 <= k < n - i && found == Some((i + k) as usize),
                None => found is None,
            },
        decreases i,
    {
        i -= 1;
        assert(labels@.subrange(i as int, n as int).drop_first() =~= labels@.subrange(
            i + 1,
            n as int,
        ));
        if labels[i].value == value {
            found = Some(i);
        }
    }
    assert(labels@.subrange(0, n as int) =~= labels@);
    found
}

fn bare_byte(raw_value: u8) -> (text: String)
    ensures
        text@ == "0x"@ + hex_u8(raw_value),
{
    let mut text = String::from_str("0x");
    push_hex_u8(&mut text, raw_value);
    text
}

/// Says how the value `raw_value` of the option `option_id` reads.
pub fn decode_ccf_value(table: &CcfDecodeTable, option_id: u16, raw_value: u8) -> (text: String)
    ensures
        text@ == decoded_value(*table, option_id, raw_value),
{
    match find_option(table, option_id) {
        Some(i) => {
            let option = &table.options[i];
            match find_label(&option.labels, raw_value) {
                Some(k) => named_text(option.labels[k].label.as_str(), raw_value),
                None => match &option.name {
                    Some(name) => {
                        let mut text = String::from_str(name.as_str());
                        text.append(": 0x");
                        push_hex_u8(&mut text, raw_value);
                        text.append(" (unknown)");
                        text
                    },
                    None => bare_byte(raw_value),
                },
            }
        },
        None => bare_byte(raw_value),
    }
}

fn numbered_option(option_id: u16) -> (text: String)
    ensures
        text@ == "Option "@ + decimal(option_id as nat),
{
    let mut text = String::from_str("Option ");
    push_decimal(&mut text, option_id as u64);
    text
}

/// The name of the option `option_id`.
pub fn ccf_option_name(table: &CcfDecodeTable, option_id: u16) -> (name: String)
    ensures
        name@ == option_name(*table, option_id),
{
    match find_option(table, option_id) {
        Some(i) => match &table.options[i].name {
            Some(name) => String::from_str(name.as_str()),
            None => numbered_option(option_id),
        },
        None => numbered_option(option_id),
    }
}

/// The view of an optional block of bytes.
pub open spec fn block_view(block: Option<Vec<u8>>) -> Option<Seq<u8>> {
    match block {
        Some(b) => Some(b@),
        None => None,
    }
}

/// The byte of an option in a configuration block: the options follow the
/// header, one byte each, at the place of their number.
pub open spec fn option_byte(block: Option<Seq<u8>>, option_id: u16) -> Option<u8> {
    match block {
        Some(bytes) => byte_at(bytes, CCF_HEADER_LEN + option_id),
        None => None,
    }
}

/// Whether two of the values that are there differ.
pub open spec fn values_differ(gwm: Option<u8>, bcm: Option<u8>, imc: Option<u8>) -> bool {
    ||| (gwm is Some && bcm is Some && gwm != bcm)
    ||| (gwm is Some && imc is Some && gwm != imc)
    ||| (bcm is Some && imc is Some && bcm != imc)
}

/// How an optional value of an option reads.
pub open spec fn decoded_option(table: CcfDecodeTable, option_id: u16, value: Option<u8>) -> Option<
    Seq<char>,
> {
    match value {
        Some(raw) => Some(decoded_value(table, option_id, raw)),
        None => None,
    }
}

/// One row of the comparison, as plain values.
pub struct CompareRow {
    pub option_id: u16,
    pub name: Seq<char>,
    pub gwm: Option<Seq<char>>,
    pub bcm: Option<Seq<char>>,
    pub imc: Option<Seq<char>>,
    pub mismatch: bool,
}

impl CcfCompareEntry {
    /// This row as plain values.
    pub open spec fn row(&self) -> CompareRow {
        CompareRow {
            option_id: self.option_id,
            name: self.name@,
            gwm: text_view(self.gwm),
            bcm: text_view(self.bcm),
            imc: text_view(self.imc),
            mismatch: self.mismatch,
        }
    }
}

/// The row that compares one option across the three blocks.
pub open spec fn compare_row(
    table: CcfDecodeTable,
    option_id: u16,
    gwm: Option<Seq<u8>>,
    bcm: Option<Seq<u8>>,
    imc: Option<Seq<u8>>,
) -> CompareRow {
    CompareRow {
        option_id,
        name: option_name(table, option_id),
        gwm: decoded_option(table, option_id, option_byte(gwm, option_id)),
        bcm: decoded_option(table, option_id, option_byte(bcm, option_id)),
        imc: decoded_option(table, option_id, option_byte(imc, option_id)),
        mismatch: values_differ(
            option_byte(gwm, option_id),
            option_byte(bcm, option_id),
            option_byte(imc, option_id),
        ),
    }
}

fn option_value(block: &Option<Vec<u8>>, option_id: u16) -> (value: Option<u8>)
    ensures
        value == option_byte(block_view(*block), option_id),
{
    match block {
        Some(bytes) => {
            let index = CCF_HEADER_LEN + option_id as usize;
            if index < bytes.len() {
                Some(bytes[index])
            } else {
                None
            }
        },
        None => None,
    }
}

fn decode_option(table: &CcfDecodeTable, option_id: u16, value: Option<u8>) -> (text: Option<
    String,
>)
    ensures
        text_view(text) == decoded_option(*table, option_id, value),
{
    match value {
        Some(raw) => Some(decode_ccf_value(table, option_id, raw)),
        None => None,
    }
}

fn differ(a: Option<u8>, b: Option<u8>) -> (d: bool)
    ensures
        d == (a is Some && b is Some && a != b),
{
    match (a, b) {
        (Some(x), Some(y)) => x != y,
        _ => false,
    }
}

/// Compares the configuration blocks of the gateway, the body control
/// module and the infotainment module: one row for each known option, in
/// the order of the list, with the value that each block holds for it and
/// whether two of them differ. A block that was not read, or that ends
/// before the option, has no value there.
pub fn compare_ccf_blocks(
    table: &CcfDecodeTable,
    gwm: &Option<Vec<u8>>,
    bcm: &Option<Vec<u8>>,
    imc: &Option<Vec<u8>>,
) -> (entries: Vec<CcfCompareEntry>)
    ensures
        entries@.len() == CCF_OPTION_COUNT,
        forall|i: int|
            0 <= i < CCF_OPTION_COUNT ==> (#[trigger] entries@[i]).row() == compare_row(
                *table,
                IMC_CCF_OPTION_IDS@[i],
                block_view(*gwm),
                block_view(*bcm),
                block_view(*imc),
            ),
{
    let mut entries: Vec<CcfCompareEntry> = Vec::new();
    let mut i: usize = 0;
    while i < CCF_OPTION_COUNT
        invariant
            i <= CCF_OPTION_COUNT,
            entries@.len() == i,
            forall|k: int|
                0 <= k < i ==> (#[trigger] entries@[k]).row() == compare_row(
                    *table,
                    IMC_CCF_OPTION_IDS@[k],
                    block_view(*gwm),
                    block_view(*bcm),
                    block_view(*imc),
                ),
        decreases CCF_OPTION_COUNT - i,
    {
        let option_id = IMC_CCF_OPTION_IDS[i];
        let g = option_value(gwm, option_id);
        let b = option_value(bcm, option_id);
        let m = option_value(imc, option_id);
        entries.push(
            CcfCompareEntry {
                option_id,
                name: ccf_option_name(table, option_id),
                gwm: decode_option(table, option_id, g),
                bcm: decode_option(table, option_id, b),
                imc: decode_option(table, option_id, m),
                mismatch: differ(g, b) || differ(g, m) || differ(b, m),
            },
        );
        i += 1;
    }
    entries
}

/// The number of rows that report a mismatch.
pub open spec fn mismatch_count(entries: Seq<CcfCompareEntry>) -> nat
    decreases entries.len(),
{
    if entries.len() == 0 {
        0
    } else {
        mismatch_count(entries.drop_last()) + if entries.last().mismatch {
            1nat
        } else {
            0nat
        }
    }
}

/// Counts the rows that report a mismatch.
pub fn count_mismatches(entries: &Vec<CcfCompareEntry>) -> (count: usize)
    ensures
        count == mismatch_count(entries@),
{
    let n = entries.len();
    let mut count: usize = 0;
    let mut i: usize = 0;
    while i < n
        invariant
            n == entries@.len(),
            i <= n,
            count <= i,
            count == mismatch_count(entries@.subrange(0, i as int)),
        decreases n - i,
    {
        assert(entries@.subrange(0, i + 1).drop_last() =~= entries@.subrange(0, i as int));
        if entries[i].mismatch {
            count += 1;
        }
        i += 1;
    }
    assert(entries@.subrange(0, n as int) =~= entries@);
    count
}

} // verus!
