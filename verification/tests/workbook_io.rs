use spreadsheet::cells::CellValue;
use spreadsheet::workbook::{parse_from_binary, sheet_names_from_binary};

fn crc32(data: &[u8]) -> u32 {
    let mut crc: u32 = 0xFFFF_FFFF;
    for &b in data {
        crc ^= b as u32;
        for _ in 0..8 {
            if crc & 1 != 0 {
                crc = (crc >> 1) ^ 0xEDB8_8320;
            } else {
                crc >>= 1;
            }
        }
    }
    !crc
}

fn push_u16(out: &mut Vec<u8>, v: u16) {
    out.extend_from_slice(&v.to_le_bytes());
}

fn push_u32(out: &mut Vec<u8>, v: u32) {
    out.extend_from_slice(&v.to_le_bytes());
}

/// Builds an archive of stored (uncompressed) entries.
fn build_zip(entries: &[(&str, &str)]) -> Vec<u8> {
    let mut out: Vec<u8> = Vec::new();
    let mut central: Vec<u8> = Vec::new();
    for (name, text) in entries {
        let data = text.as_bytes();
        let offset = out.len() as u32;
        let crc = crc32(data);
        push_u32(&mut out, 0x0403_4b50);
        push_u16(&mut out, 20);
        push_u16(&mut out, 0);
        push_u16(&mut out, 0);
        push_u16(&mut out, 0);
        push_u16(&mut out, 0);
        push_u32(&mut out, crc);
        push_u32(&mut out, data.len() as u32);
        push_u32(&mut out, data.len() as u32);
        push_u16(&mut out, name.len() as u16);
        push_u16(&mut out, 0);
        out.extend_from_slice(name.as_bytes());
        out.extend_from_slice(data);

        push_u32(&mut central, 0x0201_4b50);
        push_u16(&mut central, 20);
        push_u16(&mut central, 20);
        push_u16(&mut central, 0);
        push_u16(&mut central, 0);
        push_u16(&mut central, 0);
        push_u16(&mut central, 0);
        push_u32(&mut central, crc);
        push_u32(&mut central, data.len() as u32);
        push_u32(&mut central, data.len() as u32);
        push_u16(&mut central, name.len() as u16);
        push_u16(&mut central, 0);
        push_u16(&mut central, 0);
        push_u16(&mut central, 0);
        push_u16(&mut central, 0);
        push_u32(&mut central, 0);
        push_u32(&mut central, offset);
        central.extend_from_slice(name.as_bytes());
    }
    let cd_offset = out.len() as u32;
    let cd_size = central.len() as u32;
    let count = entries.len() as u16;
    out.extend_from_slice(&central);
    push_u32(&mut out, 0x0605_4b50);
    push_u16(&mut out, 0);
    push_u16(&mut out, 0);
    push_u16(&mut out, count);
    push_u16(&mut out, count);
    push_u32(&mut out, cd_size);
    push_u32(&mut out, cd_offset);
    push_u16(&mut out, 0);
    out
}

const RELS: &str = "<?xml version=\"1.0\" encoding=\"UTF-8\"?><Relationships xmlns=\"http://schemas.openxmlformats.org/package/2006/relationships\"><Relationship Id=\"rId1\" Type=\"http://schemas.openxmlformats.org/officeDocument/2006/relationships/officeDocument\" Target=\"xl/workbook.xml\"/></Relationships>";

const WORKBOOK_RELS: &str = "<?xml version=\"1.0\" encoding=\"UTF-8\"?><Relationships xmlns=\"http://schemas.openxmlformats.org/package/2006/relationships\"><Relationship Id=\"rId1\" Type=\"http://schemas.openxmlformats.org/officeDocument/2006/relationships/worksheet\" Target=\"worksheets/sheet1.xml\"/><Relationship Id=\"rId2\" Type=\"http://schemas.openxmlformats.org/officeDocument/2006/relationships/worksheet\" Target=\"worksheets/sheet2.xml\"/><Relationship Id=\"rId3\" Type=\"http://schemas.openxmlformats.org/officeDocument/2006/relationships/worksheet\" Target=\"worksheets/sheet3.xml\"/></Relationships>";

const WORKBOOK: &str = "<?xml version=\"1.0\" encoding=\"UTF-8\"?><workbook><sheets><sheet name=\"Alpha\" sheetId=\"1\" r:id=\"rId1\"/><sheet name=\"Secret\" sheetId=\"2\" state=\"hidden\" r:id=\"rId2\"/><sheet name=\"Deep\" sheetId=\"3\" state=\"veryHidden\" r:id=\"rId3\"/></sheets></workbook>";

const STYLES: &str = "<?xml version=\"1.0\" encoding=\"UTF-8\"?><styleSheet><numFmts count=\"1\"><numFmt numFmtId=\"164\" formatCode=\"yyyy-mm-dd hh:mm:ss\"/></numFmts><cellXfs count=\"2\"><xf numFmtId=\"0\"/><xf numFmtId=\"164\"/></cellXfs></styleSheet>";

const SHEET1: &str = "<?xml version=\"1.0\" encoding=\"UTF-8\"?><worksheet><sheetData><row r=\"1\"><c r=\"A1\" t=\"str\"><v>hello</v></c><c r=\"B1\"><v>3.5</v></c><c r=\"C1\" t=\"b\"><v>1</v></c></row><row r=\"2\"><c r=\"A2\" t=\"e\"><v>#DIV/0!</v></c><c r=\"B2\" s=\"1\"><v>45296.5</v></c></row></sheetData></worksheet>";

const SHEET_EMPTY: &str = "<?xml version=\"1.0\" encoding=\"UTF-8\"?><worksheet><sheetData/></worksheet>";

fn workbook_bytes() -> Vec<u8> {
    build_zip(&[
        ("_rels/.rels", RELS),
        ("xl/workbook.xml", WORKBOOK),
        ("xl/_rels/workbook.xml.rels", WORKBOOK_RELS),
        ("xl/styles.xml", STYLES),
        ("xl/worksheets/sheet1.xml", SHEET1),
        ("xl/worksheets/sheet2.xml", SHEET_EMPTY),
        ("xl/worksheets/sheet3.xml", SHEET_EMPTY),
    ])
}

#[test]
fn sheet_names_with_hidden_keeps_workbook_order() {
    let names = sheet_names_from_binary(workbook_bytes(), true).unwrap();
    assert_eq!(
        names,
        vec![
            String::from("Alpha"),
            String::from("Secret"),
            String::from("Deep"),
        ]
    );
}

#[test]
fn sheet_names_without_hidden_drops_hidden_and_very_hidden() {
    let names = sheet_names_from_binary(workbook_bytes(), false).unwrap();
    assert_eq!(names, vec![String::from("Alpha")]);
}

#[test]
fn parse_extracts_normalized_grid() {
    let grid = parse_from_binary(workbook_bytes(), "Alpha").unwrap();
    assert_eq!(grid.len(), 2);
    assert_eq!(grid[0].len(), 3);
    assert_eq!(grid[1].len(), 3);
    assert_eq!(grid[0][0], CellValue::Text(String::from("hello")));
    assert_eq!(grid[0][1], CellValue::Real(3.5f64.to_bits()));
    assert_eq!(grid[0][2], CellValue::Boolean(true));
    assert_eq!(grid[1][0], CellValue::ErrorText(String::from("#DIV/0!")));
    assert_eq!(
        grid[1][1],
        CellValue::DateTime(String::from("2024-01-05T12:00:00"))
    );
    assert_eq!(grid[1][2], CellValue::Empty);
}

#[test]
fn parse_missing_sheet_is_absorbed_into_empty_grid() {
    let grid = parse_from_binary(workbook_bytes(), "Nope").unwrap();
    assert_eq!(grid, Vec::<Vec<CellValue>>::new());
}

#[test]
fn open_failure_propagates_from_both_entry_points() {
    let junk = b"this is not a spreadsheet container".to_vec();
    assert!(sheet_names_from_binary(junk.clone(), true).is_err());
    assert!(sheet_names_from_binary(junk.clone(), false).is_err());
    assert!(parse_from_binary(junk, "Alpha").is_err());
}

#[test]
fn parse_twice_yields_identical_grids() {
    let first = parse_from_binary(workbook_bytes(), "Alpha").unwrap();
    let second = parse_from_binary(workbook_bytes(), "Alpha").unwrap();
    assert_eq!(first, second);
    let gone_first = parse_from_binary(workbook_bytes(), "Nope").unwrap();
    let gone_second = parse_from_binary(workbook_bytes(), "Nope").unwrap();
    assert_eq!(gone_first, gone_second);
}

#[test]
fn parse_empty_sheet_yields_empty_grid() {
    let grid = parse_from_binary(workbook_bytes(), "Secret").unwrap();
    assert_eq!(grid, Vec::<Vec<CellValue>>::new());
}
