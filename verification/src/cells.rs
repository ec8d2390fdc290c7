use crate::datefmt::{format_datetime, spec_datetime, DateParts};
use vstd::prelude::*;
use vstd::string::StringExecFns;

verus! {

/// A raw cell as the decoder hands it over, already reduced to plain values:
/// the decoder's own integer/float classification is kept verbatim, a float is
/// carried as its IEEE-754 bit pattern, and a date-time cell carries either its
/// resolved calendar fields or nothing when the decoder could not resolve it.
#[derive(Clone, PartialEq, Eq, Debug)]
pub enum RawCell {
    Int(i64),
    Float(u64),
    Text(String),
    Bool(bool),
    DateTime(Option<DateParts>),
    DateTimeIso(String),
    DurationIso(String),
    Error(String),
    Empty,
}

/// The mathematical model of a raw cell.
pub enum RawCellV {
    Int(i64),
    Float(u64),
    Text(Seq<char>),
    Bool(bool),
    DateTime(Option<DateParts>),
    DateTimeIso(Seq<char>),
    DurationIso(Seq<char>),
    Error(Seq<char>),
    Empty,
}

impl View for RawCell {
    type V = RawCellV;

    open spec fn view(&self) -> RawCellV {
        match self {
            RawCell::Int(v) => RawCellV::Int(*v),
            RawCell::Float(b) => RawCellV::Float(*b),
            RawCell::Text(s) => RawCellV::Text(s@),
            RawCell::Bool(b) => RawCellV::Bool(*b),
            RawCell::DateTime(p) => RawCellV::DateTime(*p),
            RawCell::DateTimeIso(s) => RawCellV::DateTimeIso(s@),
            RawCell::DurationIso(s) => RawCellV::DurationIso(s@),
            RawCell::Error(s) => RawCellV::Error(s@),
            RawCell::Empty => RawCellV::Empty,
        }
    }
}

/// One normalized cell: the closed set of variants a host consumes.
/// `Real` carries the IEEE-754 bit pattern of the decoder's float, untouched.
/// `DateTime` carries the `YYYY-MM-DDTHH:MM:SS` rendering of a resolved
/// date-time, or the sentinel text `Invalid DateTime` when resolution failed.
#[derive(Clone, PartialEq, Eq, Debug)]
pub enum CellValue {
    Integer(i64),
    Real(u64),
    Text(String),
    Boolean(bool),
    DateTime(String),
    DateTimeText(String),
    DurationText(String),
    ErrorText(String),
    Empty,
}

/// The mathematical model of a normalized cell.
pub enum CellV {
    Integer(i64),
    Real(u64),
    Text(Seq<char>),
    Boolean(bool),
    DateTime(Seq<char>),
    DateTimeText(Seq<char>),
    DurationText(Seq<char>),
    ErrorText(Seq<char>),
    Empty,
}

impl View for CellValue {
    type V = CellV;

    open spec fn view(&self) -> CellV {
        match self {
            CellValue::Integer(v) => CellV::Integer(*v),
            CellValue::Real(b) => CellV::Real(*b),
            CellValue::Text(s) => CellV::Text(s@),
            CellValue::Boolean(b) => CellV::Boolean(*b),
            CellValue::DateTime(s) => CellV::DateTime(s@),
            CellValue::DateTimeText(s) => CellV::DateTimeText(s@),
            CellValue::DurationText(s) => CellV::DurationText(s@),
            CellValue::ErrorText(s) => CellV::ErrorText(s@),
            CellValue::Empty => CellV::Empty,
        }
    }
}

/// The total mapping from raw cells to normalized cells: every raw variant
/// goes to exactly one normalized variant; numeric classification is kept,
/// text-like payloads pass through verbatim, and a date-time is rendered as
/// `YYYY-MM-DDTHH:MM:SS` or degrades to the sentinel text.
pub open spec fn spec_map_cell(r: RawCellV) -> CellV {
    match r {
        RawCellV::Int(v) => CellV::Integer(v),
        RawCellV::Float(b) => CellV::Real(b),
        RawCellV::Text(s) => CellV::Text(s),
        RawCellV::Bool(b) => CellV::Boolean(b),
        RawCellV::DateTime(Some(p)) => CellV::DateTime(spec_datetime(p)),
        RawCellV::DateTime(None) => CellV::DateTime("Invalid DateTime"@),
        RawCellV::DateTimeIso(s) => CellV::DateTimeText(s),
        RawCellV::DurationIso(s) => CellV::DurationText(s),
        RawCellV::Error(s) => CellV::ErrorText(s),
        RawCellV::Empty => CellV::Empty,
    }
}

/// The model of a row and of a grid.
pub open spec fn spec_map_row(r: Seq<RawCellV>) -> Seq<CellV> {
    r.map_values(|c: RawCellV| spec_map_cell(c))
}

pub open spec fn spec_map_grid(g: Seq<Seq<RawCellV>>) -> Seq<Seq<CellV>> {
    g.map_values(|r: Seq<RawCellV>| spec_map_row(r))
}

/// Views of executable rows and grids.
pub open spec fn raw_row_view(r: Seq<RawCell>) -> Seq<RawCellV> {
    r.map_values(|c: RawCell| c@)
}

pub open spec fn raw_grid_view(g: Seq<Vec<RawCell>>) -> Seq<Seq<RawCellV>> {
    g.map_values(|r: Vec<RawCell>| raw_row_view(r@))
}

pub open spec fn row_view(r: Seq<CellValue>) -> Seq<CellV> {
    r.map_values(|c: CellValue| c@)
}

pub open spec fn grid_view(g: Seq<Vec<CellValue>>) -> Seq<Seq<CellV>> {
    g.map_values(|r: Vec<CellValue>| row_view(r@))
}

/// Normalizes one raw cell. Total: it accepts every raw cell and never fails.
pub fn map_cell(raw: &RawCell) -> (c: CellValue)
    ensures
        c@ == spec_map_cell(raw@),
{
    match raw {
        RawCell::Int(v) => CellValue::Integer(*v),
        RawCell::Float(b) => CellValue::Real(*b),
        RawCell::Text(s) => CellValue::Text(s.clone()),
        RawCell::Bool(b) => CellValue::Boolean(*b),
        RawCell::DateTime(Some(p)) => CellValue::DateTime(format_datetime(*p)),
        RawCell::DateTime(None) => CellValue::DateTime(String::from_str("Invalid DateTime")),
        RawCell::DateTimeIso(s) => CellValue::DateTimeText(s.clone()),
        RawCell::DurationIso(s) => CellValue::DurationText(s.clone()),
        RawCell::Error(s) => CellValue::ErrorText(s.clone()),
        RawCell::Empty => CellValue::Empty,
    }
}

/// Normalizes one row, cell by cell, keeping its length.
pub fn map_row(row: &Vec<RawCell>) -> (out: Vec<CellValue>)
    ensures
        row_view(out@) == spec_map_row(raw_row_view(row@)),
        out@.len() == row@.len(),
{
    let mut out: Vec<CellValue> = Vec::new();
    let mut j: usize = 0;
    while j < row.len()
        invariant
            j <= row.len(),
            out@.len() == j,
            forall|k: int| 0 <= k < j ==> (#[trigger] out@[k])@ == spec_map_cell(row@[k]@),
        decreases row.len() - j,
    {
        let c = map_cell(&row[j]);
        out.push(c);
        j += 1;
    }
    proof {
        assert(row_view(out@) =~= spec_map_row(raw_row_view(row@)));
    }
    out
}

/// Normalizes a whole grid row by row. Row count and every single row length
/// are kept exactly as the decoder produced them; ragged rows stay ragged.
pub fn map_grid(grid: &Vec<Vec<RawCell>>) -> (out: Vec<Vec<CellValue>>)
    ensures
        grid_view(out@) == spec_map_grid(raw_grid_view(grid@)),
        out@.len() == grid@.len(),
{
    let mut out: Vec<Vec<CellValue>> = Vec::new();
    let mut i: usize = 0;
    while i < grid.len()
        invariant
            i <= grid.len(),
            out@.len() == i,
            forall|k: int|
                0 <= k < i ==> row_view((#[trigger] out@[k])@) == spec_map_row(
                    raw_row_view(grid@[k]@),
                ),
        decreases grid.len() - i,
    {
        let r = map_row(&grid[i]);
        out.push(r);
        i += 1;
    }
    proof {
        assert(grid_view(out@) =~= spec_map_grid(raw_grid_view(grid@)));
    }
    out
}

/// A grid keeps its shape under normalization: the same number of rows, and
/// each row exactly its own length, equal or not to the others'.
pub proof fn lemma_map_grid_preserves_shape(g: Seq<Seq<RawCellV>>)
    ensures
        spec_map_grid(g).len() == g.len(),
        forall|i: int| 0 <= i < g.len() ==> (#[trigger] spec_map_grid(g)[i]).len() == g[i].len(),
{
}

} // verus!
