use spreadsheet::cells::{map_cell, map_grid, map_row, CellValue, RawCell};
use spreadsheet::datefmt::{format_datetime, DateParts};

fn parts(year: i32, month: u32, day: u32, hour: u32, minute: u32, second: u32) -> DateParts {
    DateParts { year, month, day, hour, minute, second }
}

#[test]
fn map_cell_integer() {
    assert_eq!(map_cell(&RawCell::Int(7)), CellValue::Integer(7));
    assert_eq!(map_cell(&RawCell::Int(-3)), CellValue::Integer(-3));
}

#[test]
fn map_cell_real_keeps_bits() {
    let bits = 2.5f64.to_bits();
    assert_eq!(map_cell(&RawCell::Float(bits)), CellValue::Real(bits));
}

#[test]
fn map_cell_text() {
    assert_eq!(
        map_cell(&RawCell::Text(String::from("3"))),
        CellValue::Text(String::from("3"))
    );
}

#[test]
fn map_cell_boolean() {
    assert_eq!(map_cell(&RawCell::Bool(true)), CellValue::Boolean(true));
    assert_eq!(map_cell(&RawCell::Bool(false)), CellValue::Boolean(false));
}

#[test]
fn map_cell_datetime_resolved() {
    let c = map_cell(&RawCell::DateTime(Some(parts(2024, 1, 5, 13, 7, 9))));
    assert_eq!(c, CellValue::DateTime(String::from("2024-01-05T13:07:09")));
}

#[test]
fn map_cell_datetime_unresolved_is_sentinel() {
    let c = map_cell(&RawCell::DateTime(None));
    assert_eq!(c, CellValue::DateTime(String::from("Invalid DateTime")));
}

#[test]
fn map_cell_datetime_iso_passthrough() {
    let c = map_cell(&RawCell::DateTimeIso(String::from("2021-05-01T00:00:00")));
    assert_eq!(c, CellValue::DateTimeText(String::from("2021-05-01T00:00:00")));
}

#[test]
fn map_cell_duration_iso_passthrough() {
    let c = map_cell(&RawCell::DurationIso(String::from("PT1H30M")));
    assert_eq!(c, CellValue::DurationText(String::from("PT1H30M")));
}

#[test]
fn map_cell_error_text() {
    let c = map_cell(&RawCell::Error(String::from("#DIV/0!")));
    assert_eq!(c, CellValue::ErrorText(String::from("#DIV/0!")));
}

#[test]
fn map_cell_empty() {
    assert_eq!(map_cell(&RawCell::Empty), CellValue::Empty);
}

#[test]
fn datetime_format_pads_every_field() {
    let s = format_datetime(parts(987, 3, 4, 5, 6, 7));
    assert_eq!(s, "0987-03-04T05:06:07");
}

#[test]
fn datetime_format_wide_fields_unpadded() {
    let s = format_datetime(parts(12345, 12, 31, 23, 59, 59));
    assert_eq!(s, "12345-12-31T23:59:59");
}

#[test]
fn datetime_format_negative_year() {
    let s = format_datetime(parts(-44, 3, 15, 12, 0, 0));
    assert_eq!(s, "-0044-03-15T12:00:00");
}

#[test]
fn datetime_format_year_zero() {
    let s = format_datetime(parts(0, 1, 1, 0, 0, 0));
    assert_eq!(s, "0000-01-01T00:00:00");
}

#[test]
fn map_row_keeps_length_and_order() {
    let row = vec![
        RawCell::Int(1),
        RawCell::Text(String::from("a")),
        RawCell::Empty,
    ];
    let out = map_row(&row);
    assert_eq!(
        out,
        vec![
            CellValue::Integer(1),
            CellValue::Text(String::from("a")),
            CellValue::Empty,
        ]
    );
}

#[test]
fn map_grid_preserves_ragged_rows() {
    let grid = vec![
        vec![RawCell::Int(1), RawCell::Int(2), RawCell::Int(3)],
        vec![RawCell::Text(String::from("only"))],
        vec![],
        vec![RawCell::Bool(true), RawCell::Empty],
    ];
    let out = map_grid(&grid);
    assert_eq!(out.len(), 4);
    assert_eq!(out[0].len(), 3);
    assert_eq!(out[1].len(), 1);
    assert_eq!(out[2].len(), 0);
    assert_eq!(out[3].len(), 2);
    assert_eq!(out[0][2], CellValue::Integer(3));
    assert_eq!(out[1][0], CellValue::Text(String::from("only")));
}
