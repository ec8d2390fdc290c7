use crate::cells::{
    grid_view, map_grid, raw_grid_view, raw_row_view, spec_map_grid, CellV, CellValue, RawCell,
    RawCellV,
};
use crate::datefmt::DateParts;
use crate::sheets::{
    filter_sheet_names_by_visibility, meta_view, names_view, spec_filter_names, SheetInfo,
    SheetInfoV, Visibility,
};
use calamine::{Data, Reader, SheetVisible};
use chrono::{Datelike, Timelike};
use vstd::prelude::*;

verus! {

#[verifier::external_type_specification]
#[verifier::external_body]
#[verifier::reject_recursive_types(RS)]
pub struct ExSheets<RS>(calamine::Sheets<RS>);

#[verifier::external_type_specification]
#[verifier::external_body]
pub struct ExData(calamine::Data);

#[verifier::external_type_specification]
#[verifier::external_body]
pub struct ExExcelDateTime(calamine::ExcelDateTime);

#[verifier::external_type_specification]
#[verifier::external_body]
#[verifier::reject_recursive_types(T)]
pub struct ExRange<T>(calamine::Range<T>);

#[verifier::external_type_specification]
#[verifier::external_body]
#[verifier::reject_recursive_types(T)]
pub struct ExCursor<T>(std::io::Cursor<T>);

/// What auto-detected opening of a byte buffer yields: nothing on success, or
/// the decoder's rendered error message. Decoding is a pure function of the
/// buffer, so the outcome is one of the bytes alone.
pub uninterp spec fn open_error(bytes: Seq<u8>) -> Option<Seq<char>>;

/// The sheet metadata of an opened workbook, in workbook order: one descriptor
/// per sheet, a pure function of the source bytes.
pub uninterp spec fn sheet_list(bytes: Seq<u8>) -> Seq<SheetInfoV>;

/// What resolving a named sheet's rectangular range yields: its raw rows, or
/// nothing when the sheet is absent or its range cannot be read. A pure
/// function of the source bytes and the sheet name.
pub uninterp spec fn range_outcome(bytes: Seq<u8>, sheet: Seq<char>) -> Option<
    Seq<Seq<RawCellV>>,
>;

/// The sheet names alone, in workbook order.
pub open spec fn sheet_list_names(bytes: Seq<u8>) -> Seq<Seq<char>> {
    sheet_list(bytes).map_values(|s: SheetInfoV| s.name)
}

/// The resolved raw rows, or no rows at all where resolution failed.
pub open spec fn opt_rows(bytes: Seq<u8>, sheet: Seq<char>) -> Seq<Seq<RawCellV>> {
    match range_outcome(bytes, sheet) {
        Some(rows) => rows,
        None => Seq::empty(),
    }
}

/// A workbook opened from an in-memory byte buffer, held for one request.
pub struct Workbook {
    inner: calamine::Sheets<std::io::Cursor<Vec<u8>>>,
    src: Ghost<Seq<u8>>,
}

/// A resolved sheet range, together with the source it came from.
pub struct SheetRange {
    inner: calamine::Range<calamine::Data>,
    src: Ghost<Seq<u8>>,
    sheet: Ghost<Seq<char>>,
}

/// Relies on calamine's `open_workbook_auto_from_rs`: detects the container
/// format from the bytes and opens it, and on its `Error`'s rendering for the
/// failure message. Both are functions of the buffer alone.
#[verifier::external_body]
fn open_bytes_raw(content: Vec<u8>) -> (r: Result<
    calamine::Sheets<std::io::Cursor<Vec<u8>>>,
    String,
>)
    ensures
        open_error(content@) is None <==> r is Ok,
        r matches Err(e) ==> (open_error(content@) matches Some(m) && e@ == m),
{
    match calamine::open_workbook_auto_from_rs(std::io::Cursor::new(content)) {
        Ok(inner) => Ok(inner),
        Err(e) => Err(e.to_string()),
    }
}

/// Opens a workbook from a byte buffer, remembering which bytes it came from.
fn open_bytes(content: Vec<u8>) -> (r: Result<Workbook, String>)
    ensures
        open_error(content@) is None <==> r is Ok,
        r matches Ok(wb) ==> wb.src@ == content@,
        r matches Err(e) ==> (open_error(content@) matches Some(m) && e@ == m),
{
    let ghost src = content@;
    match open_bytes_raw(content) {
        Ok(inner) => Ok(Workbook { inner, src: Ghost(src) }),
        Err(e) => Err(e),
    }
}

/// Relies on calamine's `Reader::sheets_metadata`: one descriptor per sheet,
/// in workbook order, with its name and visibility flag.
#[verifier::external_body]
fn wb_metadata(wb: &Workbook) -> (v: Vec<SheetInfo>)
    ensures
        meta_view(v@) == sheet_list(wb.src@),
{
    let mut out: Vec<SheetInfo> = Vec::new();
    for s in wb.inner.sheets_metadata() {
        let visible = match s.visible {
            SheetVisible::Visible => Visibility::Visible,
            SheetVisible::Hidden => Visibility::Hidden,
            SheetVisible::VeryHidden => Visibility::VeryHidden,
        };
        out.push(SheetInfo { name: s.name.clone(), visible });
    }
    out
}

/// Relies on calamine's `Reader::sheet_names`, which renders the metadata
/// descriptors' names, in the same workbook order.
#[verifier::external_body]
fn wb_names(wb: &Workbook) -> (v: Vec<String>)
    ensures
        names_view(v@) == sheet_list_names(wb.src@),
{
    wb.inner.sheet_names()
}

/// Relies on calamine's `Reader::worksheet_range`: resolves the named sheet to
/// its rectangular range, failing when the sheet is absent or unreadable.
#[verifier::external_body]
fn wb_range_raw(wb: &mut Workbook, sheet: &str) -> (r: Option<
    calamine::Range<calamine::Data>,
>)
    ensures
        final(wb).src@ == old(wb).src@,
        range_outcome(old(wb).src@, sheet@) is Some <==> r is Some,
{
    match wb.inner.worksheet_range(sheet) {
        Ok(inner) => Some(inner),
        Err(_) => None,
    }
}

/// Resolves the named sheet's range, remembering its source and name.
fn wb_range(wb: &mut Workbook, sheet: &str) -> (r: Option<SheetRange>)
    ensures
        final(wb).src@ == old(wb).src@,
        range_outcome(old(wb).src@, sheet@) is Some <==> r is Some,
        r matches Some(sr) ==> sr.src@ == old(wb).src@ && sr.sheet@ == sheet@,
{
    let ghost src = wb.src@;
    match wb_range_raw(wb, sheet) {
        Some(inner) => Some(SheetRange { inner, src: Ghost(src), sheet: Ghost(sheet@) }),
        None => None,
    }
}

/// Relies on calamine's `Range::height`: the number of rows of the range.
#[verifier::external_body]
fn range_height(r: &SheetRange) -> (h: usize)
    ensures
        h == opt_rows(r.src@, r.sheet@).len(),
{
    r.inner.height()
}

/// Relies on calamine's `Range::width`: a range is rectangular, every row
/// having exactly `width` cells.
#[verifier::external_body]
fn range_width(r: &SheetRange) -> (w: usize)
    ensures
        forall|i: int|
            0 <= i < opt_rows(r.src@, r.sheet@).len() ==> (#[trigger] opt_rows(
                r.src@,
                r.sheet@,
            )[i]).len() == w,
{
    r.inner.width()
}

/// Relies on calamine's `ExcelDateTime::as_datetime` for the calendar
/// resolution of a serial date-time, and on chrono's field accessors to take
/// the resolved value apart; all are functions of the value alone.
#[verifier::external_body]
fn excel_datetime_parts(v: &calamine::ExcelDateTime) -> (p: Option<DateParts>) {
    match v.as_datetime() {
        Some(t) => Some(
            DateParts {
                year: t.year(),
                month: t.month(),
                day: t.day(),
                hour: t.hour(),
                minute: t.minute(),
                second: t.second(),
            },
        ),
        None => None,
    }
}

/// Relies on calamine's `Range::get` and on the `Data` variants: each raw cell
/// is carried over one for one, a float as its bit pattern, an error cell as
/// its rendered text, and a serial date-time as its resolved calendar fields.
#[verifier::external_body]
fn range_cell(r: &SheetRange, row: usize, col: usize) -> (c: RawCell)
    ensures
        0 <= row < opt_rows(r.src@, r.sheet@).len() && 0 <= col < opt_rows(
            r.src@,
            r.sheet@,
        )[row as int].len() ==> c@ == opt_rows(r.src@, r.sheet@)[row as int][col as int],
{
    match r.inner.get((row, col)) {
        None => RawCell::Empty,
        Some(Data::Int(v)) => RawCell::Int(*v),
        Some(Data::Float(v)) => RawCell::Float(v.to_bits()),
        Some(Data::String(v)) => RawCell::Text(v.clone()),
        Some(Data::Bool(v)) => RawCell::Bool(*v),
        Some(Data::DateTime(v)) => RawCell::DateTime(excel_datetime_parts(v)),
        Some(Data::DateTimeIso(v)) => RawCell::DateTimeIso(v.clone()),
        Some(Data::DurationIso(v)) => RawCell::DurationIso(v.clone()),
        Some(Data::Error(v)) => RawCell::Error(format!("{}", v)),
        Some(Data::Empty) => RawCell::Empty,
    }
}

/// Reads a resolved range out into raw rows, cell by cell.
fn read_raw_grid(sr: &SheetRange) -> (g: Vec<Vec<RawCell>>)
    ensures
        raw_grid_view(g@) == opt_rows(sr.src@, sr.sheet@),
{
    let ghost rows = opt_rows(sr.src@, sr.sheet@);
    let h = range_height(sr);
    let w = range_width(sr);
    let mut out: Vec<Vec<RawCell>> = Vec::new();
    let mut i: usize = 0;
    while i < h
        invariant
            i <= h,
            h == rows.len(),
            out@.len() == i,
            forall|k: int|
                0 <= k < rows.len() ==> (#[trigger] rows[k]).len() == w,
            forall|k: int|
                0 <= k < i ==> raw_row_view((#[trigger] out@[k])@) == rows[k],
            rows == opt_rows(sr.src@, sr.sheet@),
        decreases h - i,
    {
        let mut row: Vec<RawCell> = Vec::new();
        let mut j: usize = 0;
        while j < w
            invariant
                j <= w,
                i < h,
                h == rows.len(),
                row@.len() == j,
                forall|k: int|
                    0 <= k < rows.len() ==> (#[trigger] rows[k]).len() == w,
                forall|k: int|
                    0 <= k < j ==> (#[trigger] row@[k])@ == rows[i as int][k],
                rows == opt_rows(sr.src@, sr.sheet@),
            decreases w - j,
        {
            let c = range_cell(sr, i, j);
            row.push(c);
            j += 1;
        }
        proof {
            assert(raw_row_view(row@) =~= rows[i as int]);
        }
        out.push(row);
        i += 1;
    }
    proof {
        assert(raw_grid_view(out@) =~= rows);
    }
    out
}

/// The model of a parsing result, with every executable value replaced by its
/// view.
pub open spec fn parse_result_view(r: Result<Vec<Vec<CellValue>>, String>) -> Result<
    Seq<Seq<CellV>>,
    Seq<char>,
> {
    match r {
        Ok(g) => Ok(grid_view(g@)),
        Err(e) => Err(e@),
    }
}

/// The whole parsing contract: an opening failure is fatal and surfaces the
/// decoder's message; a range that cannot be resolved is absorbed into an
/// empty grid, success with zero rows; a resolved range is normalized cell by
/// cell.
pub open spec fn parse_post(
    bytes: Seq<u8>,
    sheet: Seq<char>,
    res: Result<Seq<Seq<CellV>>, Seq<char>>,
) -> bool {
    match open_error(bytes) {
        Some(m) => res == Err::<Seq<Seq<CellV>>, Seq<char>>(m),
        None => match range_outcome(bytes, sheet) {
            Some(raw) => res == Ok::<Seq<Seq<CellV>>, Seq<char>>(spec_map_grid(raw)),
            None => res == Ok::<Seq<Seq<CellV>>, Seq<char>>(Seq::empty()),
        },
    }
}

/// Lists the sheet names of the workbook in `content`, filtered by
/// visibility: with `show_hidden` every name in workbook order, without it
/// only the visible ones. A workbook that does not open is a fatal error
/// carrying the decoder's message.
pub fn sheet_names_from_binary(content: Vec<u8>, show_hidden: bool) -> (r: Result<
    Vec<String>,
    String,
>)
    ensures
        open_error(content@) is None ==> (r matches Ok(names) && names_view(names@)
            == spec_filter_names(
            sheet_list_names(content@),
            sheet_list(content@),
            show_hidden,
        )),
        open_error(content@) matches Some(m) ==> (r matches Err(e) && e@ == m),
{
    match open_bytes(content) {
        Ok(wb) => {
            let sheet_names = wb_names(&wb);
            let sheets_metadata = wb_metadata(&wb);
            Ok(filter_sheet_names_by_visibility(&sheet_names, &sheets_metadata, show_hidden))
        },
        Err(e) => Err(e),
    }
}

/// Extracts the named sheet of the workbook in `content` as a normalized
/// grid. A workbook that does not open is a fatal error; a sheet whose range
/// cannot be resolved is absorbed into an empty grid, indistinguishable from
/// a sheet with no rows.
pub fn parse_from_binary(content: Vec<u8>, sheet_name: &str) -> (r: Result<
    Vec<Vec<CellValue>>,
    String,
>)
    ensures
        parse_post(content@, sheet_name@, parse_result_view(r)),
{
    match open_bytes(content) {
        Err(e) => Err(e),
        Ok(mut wb) => match wb_range(&mut wb, sheet_name) {
            None => {
                let out: Vec<Vec<CellValue>> = Vec::new();
                proof {
                    assert(grid_view(out@) =~= Seq::<Seq<CellV>>::empty());
                }
                Ok(out)
            },
            Some(sr) => {
                let raw = read_raw_grid(&sr);
                Ok(map_grid(&raw))
            },
        },
    }
}

/// Parsing is repeatable: the contract admits exactly one result for given
/// source bytes and sheet name, so two calls on the same unmodified source
/// yield identical grids, and identical errors.
pub proof fn lemma_parse_deterministic(
    bytes: Seq<u8>,
    sheet: Seq<char>,
    r1: Result<Seq<Seq<CellV>>, Seq<char>>,
    r2: Result<Seq<Seq<CellV>>, Seq<char>>,
)
    requires
        parse_post(bytes, sheet, r1),
        parse_post(bytes, sheet, r2),
    ensures
        r1 == r2,
{
}

} // verus!
