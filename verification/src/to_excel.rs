//! Worksheet exports of the tables. A worksheet is modelled by the texts
//! and the numbers in its cells; every export is a list of cell writes.
use vstd::prelude::*;
use rust_xlsxwriter::Worksheet;
use crate::authorization::{three_words, join_three_words};
use crate::tables::{mark_or_missing, mark_text};
use crate::tables::academic_plan::{plan_row_texts, AcademicPlanRow, StudentPlanRow};
use crate::text::dec_int;
use crate::tables::group::{group_name, GroupListRow, GroupMemberRow};
use crate::tables::specialization::SpecializationRow;
use crate::tables::student::{row_group_text, StudentListRow};
use crate::tables::student_card::{StudentCardRow, StudentMarkRow};
use crate::tables::subject::SubjectRow;
use crate::tables::{academic_plan, group, specialization, student, student_card, subject};

verus! {

/// rust_xlsxwriter's `Worksheet`, opaque to proofs: what it holds is seen
/// only through `sheet_texts`, `sheet_numbers` and `sheet_streams_rows`.
#[verifier::external_type_specification]
#[verifier::external_body]
pub struct ExWorksheet(Worksheet);

/// The string cells of a worksheet, by (row, column).
pub uninterp spec fn sheet_texts(ws: Worksheet) -> Map<(u32, u16), Seq<char>>;

/// The number cells of a worksheet, by (row, column), each as the integer
/// value of the stored `f64`.
pub uninterp spec fn sheet_numbers(ws: Worksheet) -> Map<(u32, u16), int>;

/// The worksheet was made in rust_xlsxwriter's constant-memory mode, where
/// rows are flushed to the file as later rows are written.
pub uninterp spec fn sheet_streams_rows(ws: Worksheet) -> bool;

/// Length of a text in UTF-16 code units, the measure of Excel's limit.
pub open spec fn utf16_len(s: Seq<char>) -> nat
    decreases s.len(),
{
    if s.len() == 0 {
        0
    } else {
        utf16_len(s.drop_last()) + (if s.last() as int >= 0x10000 { 2nat } else { 1nat })
    }
}

/// A text that fits in an Excel cell (at most 32,767 UTF-16 units).
pub open spec fn text_fits(s: Seq<char>) -> bool {
    utf16_len(s) <= 32767
}

/// A cell inside Excel's grid of 1,048,576 rows and 16,384 columns.
pub open spec fn in_sheet(row: u32, col: u16) -> bool {
    row < 1_048_576 && col < 16_384
}

/// Integers that an `f64` holds exactly (Excel keeps numbers as `f64`).
pub open spec fn exactly_stored(v: int) -> bool {
    -0x20_0000_0000_0000 <= v <= 0x20_0000_0000_0000
}

/// `ws.write(row, col, text)` with a string. rust_xlsxwriter's `store_string`
/// skips empty strings; any other string replaces the cell with that text.
/// The row and column limits and the string length limit are the
/// conditions of its errors, which are excluded here.
#[verifier::external_body]
fn write_text(ws: &mut Worksheet, row: u32, col: u16, text: &str)
    requires
        in_sheet(row, col),
        text_fits(text@),
    ensures
        sheet_streams_rows(*final(ws)) == sheet_streams_rows(*old(ws)),
        !sheet_streams_rows(*old(ws)) && text@.len() == 0 ==> sheet_texts(*final(ws)) == sheet_texts(*old(ws))
            && sheet_numbers(*final(ws)) == sheet_numbers(*old(ws)),
        !sheet_streams_rows(*old(ws)) && text@.len() > 0 ==> sheet_texts(*final(ws))
            == sheet_texts(*old(ws)).insert((row, col), text@)
            && sheet_numbers(*final(ws)) == sheet_numbers(*old(ws)).remove((row, col)),
{
    ws.write(row, col, text).unwrap();
}

/// `ws.write(row, col, value)` with an `i32`: rust_xlsxwriter stores it as
/// an `f64` number cell, which holds every `i32` exactly.
#[verifier::external_body]
fn write_i32(ws: &mut Worksheet, row: u32, col: u16, value: i32)
    requires
        in_sheet(row, col),
    ensures
        sheet_streams_rows(*final(ws)) == sheet_streams_rows(*old(ws)),
        !sheet_streams_rows(*old(ws)) ==> sheet_texts(*final(ws)) == sheet_texts(*old(ws)).remove((row, col))
            && sheet_numbers(*final(ws)) == sheet_numbers(*old(ws)).insert((row, col), value as int),
{
    ws.write(row, col, value).unwrap();
}

/// `ws.write(row, col, value)` with an `i64`: rust_xlsxwriter stores
/// `value as f64`, exact for magnitudes up to 2^53; what the cell holds
/// beyond that is left unsaid.
#[verifier::external_body]
fn write_i64(ws: &mut Worksheet, row: u32, col: u16, value: i64)
    requires
        in_sheet(row, col),
    ensures
        sheet_streams_rows(*final(ws)) == sheet_streams_rows(*old(ws)),
        !sheet_streams_rows(*old(ws)) ==> sheet_texts(*final(ws)) == sheet_texts(*old(ws)).remove((row, col))
            && sheet_numbers(*final(ws)).dom() == sheet_numbers(*old(ws)).dom().insert((row, col))
            && (forall|k: (u32, u16)| k != (row, col) && #[trigger] sheet_numbers(*old(ws)).dom().contains(k)
                ==> sheet_numbers(*final(ws))[k] == sheet_numbers(*old(ws))[k])
            && (exactly_stored(value as int) ==> sheet_numbers(*final(ws))[(row, col)] == value as int),
{
    ws.write(row, col, value).unwrap();
}

/// What a cell holds in the model of a worksheet.
pub ghost enum CellContent {
    Text(Seq<char>),
    Number(int),
}

/// A worksheet's texts and numbers.
pub type SheetModel = (Map<(u32, u16), Seq<char>>, Map<(u32, u16), int>);

pub open spec fn sheet_model(ws: Worksheet) -> SheetModel {
    (sheet_texts(ws), sheet_numbers(ws))
}

/// The model after one cell write.
pub open spec fn apply_cell(m: SheetModel, c: (u32, u16, CellContent)) -> SheetModel {
    let k = (c.0, c.1);
    match c.2 {
        CellContent::Text(s) => if s.len() == 0 { m } else { (m.0.insert(k, s), m.1.remove(k)) },
        CellContent::Number(v) => (m.0.remove(k), m.1.insert(k, v)),
    }
}

/// The model after a list of cell writes, in order.
pub open spec fn apply_cells(m: SheetModel, cells: Seq<(u32, u16, CellContent)>) -> SheetModel
    decreases cells.len(),
{
    if cells.len() == 0 {
        m
    } else {
        apply_cell(apply_cells(m, cells.drop_last()), cells.last())
    }
}

/// The worksheet holds the texts of the model, number cells where the model
/// has numbers, and the model's number wherever an `f64` holds it exactly.
pub open spec fn sheet_agrees(ws: Worksheet, m: SheetModel) -> bool {
    &&& sheet_texts(ws) == m.0
    &&& sheet_numbers(ws).dom() == m.1.dom()
    &&& forall|k: (u32, u16)| #[trigger] m.1.dom().contains(k) && exactly_stored(m.1[k])
        ==> sheet_numbers(ws)[k] == m.1[k]
}

/// A value to write to a cell.
pub enum CellValue {
    Text(String),
    Int(i32),
    Long(i64),
}

/// A cell write: where, and what.
pub struct Cell {
    pub row: u32,
    pub col: u16,
    pub value: CellValue,
}

impl View for Cell {
    type V = (u32, u16, CellContent);

    open spec fn view(&self) -> (u32, u16, CellContent) {
        (self.row, self.col, match self.value {
            CellValue::Text(s) => CellContent::Text(s@),
            CellValue::Int(v) => CellContent::Number(v as int),
            CellValue::Long(v) => CellContent::Number(v as int),
        })
    }
}

/// A cell write that rust_xlsxwriter accepts.
pub open spec fn cell_ok(c: (u32, u16, CellContent)) -> bool {
    &&& in_sheet(c.0, c.1)
    &&& match c.2 {
        CellContent::Text(s) => text_fits(s),
        CellContent::Number(_) => true,
    }
}

pub open spec fn cells_view(cells: Seq<Cell>) -> Seq<(u32, u16, CellContent)> {
    cells.map_values(|c: Cell| c@)
}

/// Writes the cells in order.
pub fn write_cells(ws: &mut Worksheet, cells: &Vec<Cell>)
    requires
        forall|i: int| 0 <= i < cells.len() ==> cell_ok(#[trigger] cells[i]@),
    ensures
        sheet_streams_rows(*final(ws)) == sheet_streams_rows(*old(ws)),
        !sheet_streams_rows(*old(ws)) ==> sheet_agrees(*final(ws), apply_cells(sheet_model(*old(ws)), cells_view(cells@))),
{
    let ghost start = sheet_model(*ws);
    let ghost streams = sheet_streams_rows(*ws);
    let mut i: usize = 0;
    while i < cells.len()
        invariant
            i <= cells.len(),
            forall|j: int| 0 <= j < cells.len() ==> cell_ok(#[trigger] cells[j]@),
            sheet_streams_rows(*ws) == streams,
            !streams ==> sheet_agrees(*ws, apply_cells(start, cells_view(cells@).take(i as int))),
        decreases cells.len() - i,
    {
        let ghost prefix = cells_view(cells@).take(i as int);
        let cell = &cells[i];
        assert(cell_ok(cells[i as int]@));
        match &cell.value {
            CellValue::Text(s) => write_text(ws, cell.row, cell.col, s.as_str()),
            CellValue::Int(v) => write_i32(ws, cell.row, cell.col, *v),
            CellValue::Long(v) => write_i64(ws, cell.row, cell.col, *v),
        }
        proof {
            assert(cells_view(cells@).take(i + 1).drop_last() =~= prefix);
            assert(cells_view(cells@).take(i + 1).last() == cells[i as int]@);
            if !streams {
                let m = apply_cells(start, prefix);
                let m2 = apply_cells(start, cells_view(cells@).take(i + 1));
                assert(m2 == apply_cell(m, cells[i as int]@));
                let k = (cell.row, cell.col);
                match cell.value {
                    CellValue::Text(_) => {
                        assert(sheet_agrees(*ws, m2));
                    },
                    CellValue::Int(_) => {
                        assert(sheet_numbers(*ws).dom() =~= m2.1.dom());
                        assert(sheet_agrees(*ws, m2));
                    },
                    CellValue::Long(_) => {
                        assert(sheet_numbers(*ws).dom() =~= m2.1.dom());
                        assert forall|k2: (u32, u16)| #[trigger] m2.1.dom().contains(k2) && exactly_stored(m2.1[k2])
                            implies sheet_numbers(*ws)[k2] == m2.1[k2] by {
                            if k2 != k {
                                assert(m.1.dom().contains(k2));
                            }
                        }
                    },
                }
            }
        }
        i = i + 1;
    }
    assert(cells_view(cells@).take(cells.len() as int) =~= cells_view(cells@));
}


/// A cell write in the model: row, column, content.
pub type CellSpec = (u32, u16, CellContent);

/// A text takes at most two UTF-16 units per character.
pub proof fn lemma_utf16_len_bound(s: Seq<char>)
    ensures
        utf16_len(s) <= 2 * s.len(),
    decreases s.len(),
{
    if s.len() > 0 {
        lemma_utf16_len_bound(s.drop_last());
    }
}

/// The most data rows an export takes: with the header they fill Excel's
/// 1,048,576 rows.
pub open spec fn max_data_rows() -> int {
    1_048_575
}

/// A record that an export writes as one row of cells.
pub trait SheetRow: Sized {
    /// The cells written for the record on sheet row `r`.
    spec fn row_cells(r: u32, row: Self) -> Seq<CellSpec>;

    /// The record's texts fit in cells.
    spec fn fits(row: Self) -> bool;

    /// On a sheet row inside the grid, the cells of a record that fits are
    /// accepted by rust_xlsxwriter.
    proof fn lemma_cells_ok(r: u32, row: Self)
        requires
            r < 1_048_576,
            Self::fits(row),
        ensures
            forall|j: int| 0 <= j < Self::row_cells(r, row).len() ==> cell_ok(#[trigger] Self::row_cells(r, row)[j]);

    /// Appends the cells of the record on sheet row `r`.
    fn push_cells(&self, r: u32, cells: &mut Vec<Cell>)
        ensures
            cells_view(final(cells)@) == cells_view(old(cells)@) + Self::row_cells(r, *self);
}

/// The cell writes of an export: the header, then the cells of each record
/// in order, the record at index `i` on sheet row `i + 1`.
pub open spec fn table_cells<R: SheetRow>(header: Seq<CellSpec>, rows: Seq<R>) -> Seq<CellSpec>
    decreases rows.len(),
{
    if rows.len() == 0 {
        header
    } else {
        table_cells(header, rows.drop_last()) + R::row_cells(rows.len() as u32, rows.last())
    }
}

fn push_text(cells: &mut Vec<Cell>, row: u32, col: u16, text: String)
    ensures
        cells_view(final(cells)@) == cells_view(old(cells)@).push((row, col, CellContent::Text(text@))),
{
    cells.push(Cell { row, col, value: CellValue::Text(text) });
    assert(cells_view(cells@) =~= cells_view(old(cells)@).push((row, col, CellContent::Text(text@))));
}

fn push_i32(cells: &mut Vec<Cell>, row: u32, col: u16, value: i32)
    ensures
        cells_view(final(cells)@) == cells_view(old(cells)@).push((row, col, CellContent::Number(value as int))),
{
    cells.push(Cell { row, col, value: CellValue::Int(value) });
    assert(cells_view(cells@) =~= cells_view(old(cells)@).push((row, col, CellContent::Number(value as int))));
}

fn push_i64(cells: &mut Vec<Cell>, row: u32, col: u16, value: i64)
    ensures
        cells_view(final(cells)@) == cells_view(old(cells)@).push((row, col, CellContent::Number(value as int))),
{
    cells.push(Cell { row, col, value: CellValue::Long(value) });
    assert(cells_view(cells@) =~= cells_view(old(cells)@).push((row, col, CellContent::Number(value as int))));
}

/// The column titles of an export, on the first sheet row.
pub open spec fn header_spec(titles: Seq<(u16, &str)>) -> Seq<CellSpec> {
    titles.map_values(|t: (u16, &str)| (0u32, t.0, CellContent::Text(t.1@)))
}

/// The cells of column titles, given as (column, title) pairs.
fn header_cells(titles: &[(u16, &str)]) -> (r: Vec<Cell>)
    requires
        forall|i: int| 0 <= i < titles@.len() ==> (#[trigger] titles@[i]).0 < 16_384 && titles@[i].1@.len() <= 16_383,
    ensures
        cells_view(r@) == header_spec(titles@),
        forall|j: int| 0 <= j < r.len() ==> cell_ok(#[trigger] r[j]@),
{
    let mut cells: Vec<Cell> = Vec::new();
    let mut i: usize = 0;
    while i < titles.len()
        invariant
            i <= titles@.len(),
            forall|k: int| 0 <= k < titles@.len() ==> (#[trigger] titles@[k]).0 < 16_384 && titles@[k].1@.len() <= 16_383,
            cells_view(cells@) == header_spec(titles@.take(i as int)),
            forall|j: int| 0 <= j < cells.len() ==> cell_ok(#[trigger] cells[j]@),
        decreases titles@.len() - i,
    {
        let ghost before = cells@;
        let (col, title) = titles[i];
        push_text(&mut cells, 0, col, String::from_str(title));
        proof {
            lemma_utf16_len_bound(title@);
            assert(header_spec(titles@.take(i + 1)) =~= header_spec(titles@.take(i as int)).push(
                (0u32, col, CellContent::Text(title@))));
            assert forall|j: int| 0 <= j < cells.len() implies cell_ok(#[trigger] cells[j]@) by {
                assert(cells_view(cells@)[j] == cells[j]@);
                if j < before.len() {
                    assert(cells_view(before)[j] == before[j]@);
                }
            }
        }
        i = i + 1;
    }
    assert(titles@.take(titles@.len() as int) =~= titles@);
    cells
}

/// The header cells followed by the cells of every record, in order.
fn sheet_cells<R: SheetRow>(header: Vec<Cell>, rows: &Vec<R>) -> (cells: Vec<Cell>)
    requires
        forall|j: int| 0 <= j < header.len() ==> cell_ok(#[trigger] header[j]@),
        rows.len() <= max_data_rows(),
        forall|i: int| 0 <= i < rows.len() ==> R::fits(#[trigger] rows[i]),
    ensures
        cells_view(cells@) == table_cells(cells_view(header@), rows@),
        forall|j: int| 0 <= j < cells.len() ==> cell_ok(#[trigger] cells[j]@),
{
    let ghost h = cells_view(header@);
    let mut cells = header;
    assert(rows@.take(0) =~= Seq::<R>::empty());
    let mut i: usize = 0;
    while i < rows.len()
        invariant
            i <= rows.len(),
            rows.len() <= max_data_rows(),
            forall|k: int| 0 <= k < rows.len() ==> R::fits(#[trigger] rows[k]),
            cells_view(cells@) == table_cells(h, rows@.take(i as int)),
            forall|j: int| 0 <= j < cells.len() ==> cell_ok(#[trigger] cells[j]@),
        decreases rows.len() - i,
    {
        let ghost before = cells@;
        let r: u32 = (i + 1) as u32;
        rows[i].push_cells(r, &mut cells);
        proof {
            let prev = rows@.take(i as int);
            let next = rows@.take(i + 1);
            assert(next.drop_last() =~= prev);
            assert(next.last() == rows[i as int]);
            R::lemma_cells_ok(r, rows[i as int]);
            let added = R::row_cells(r, rows[i as int]);
            assert(cells_view(cells@) == cells_view(before) + added);
            assert(cells_view(before).len() == before.len());
            assert(cells_view(cells@).len() == cells@.len());
            assert(cells@.len() == before.len() + added.len());
            assert forall|j: int| 0 <= j < cells.len() implies cell_ok(#[trigger] cells[j]@) by {
                assert(cells_view(cells@)[j] == cells[j]@);
                if j < before.len() {
                    assert(cells_view(before)[j] == before[j]@);
                } else {
                    assert(cells_view(cells@)[j] == added[j - before.len()]);
                    assert(cell_ok(added[j - before.len()]));
                }
            }
        }
        i = i + 1;
    }
    assert(rows@.take(rows.len() as int) =~= rows@);
    cells
}

impl SheetRow for GroupListRow {
    open spec fn row_cells(r: u32, row: GroupListRow) -> Seq<CellSpec> {
        seq![
            (r, 0u16, CellContent::Number(row.id as int)),
            (r, 1u16, CellContent::Text(row.name@)),
            (r, 2u16, CellContent::Text(row.specialization@)),
        ]
    }

    open spec fn fits(row: GroupListRow) -> bool {
        text_fits(row.name@)
            && text_fits(row.specialization@)
    }

    proof fn lemma_cells_ok(r: u32, row: GroupListRow) {
    }

    fn push_cells(&self, r: u32, cells: &mut Vec<Cell>) {
        push_i32(cells, r, 0, self.id);
        push_text(cells, r, 1, self.name.clone());
        push_text(cells, r, 2, self.specialization.clone());
        assert(cells_view(cells@) =~= cells_view(old(cells)@) + Self::row_cells(r, *self));
    }
}

pub open spec fn group_header() -> Seq<CellSpec> {
    seq![(0u32, 0u16, CellContent::Text("ID"@)), (0u32, 1u16, CellContent::Text("Название"@)), (0u32, 2u16, CellContent::Text("Специальность"@))]
}

/// The cell writes of this export.
pub open spec fn group_sheet(rows: Seq<GroupListRow>) -> Seq<CellSpec> {
    table_cells(group_header(), rows)
}

/// Writes the group table to the worksheet. The column titles go on the first row, then one row per record,
/// in order.
pub fn export_group(ws: &mut Worksheet, rows: &Vec<GroupListRow>)
    requires
        rows.len() <= max_data_rows(),
        forall|i: int| 0 <= i < rows.len() ==> GroupListRow::fits(#[trigger] rows[i]),
    ensures
        sheet_streams_rows(*final(ws)) == sheet_streams_rows(*old(ws)),
        !sheet_streams_rows(*old(ws)) ==> sheet_agrees(*final(ws), apply_cells(sheet_model(*old(ws)), group_sheet(rows@))),
{
    proof {
        reveal_strlit("ID");
        reveal_strlit("Название");
        reveal_strlit("Специальность");
    }
    let header = header_cells(&[(0u16, "ID"), (1u16, "Название"), (2u16, "Специальность")]);
    assert(cells_view(header@) =~= group_header());
    let cells = sheet_cells(header, rows);
    write_cells(ws, &cells);
}

impl SheetRow for SpecializationRow {
    open spec fn row_cells(r: u32, row: SpecializationRow) -> Seq<CellSpec> {
        seq![
            (r, 0u16, CellContent::Number(row.id as int)),
            (r, 1u16, CellContent::Text(row.cifr@)),
            (r, 2u16, CellContent::Text(row.full_name@)),
        ]
    }

    open spec fn fits(row: SpecializationRow) -> bool {
        text_fits(row.cifr@)
            && text_fits(row.full_name@)
    }

    proof fn lemma_cells_ok(r: u32, row: SpecializationRow) {
    }

    fn push_cells(&self, r: u32, cells: &mut Vec<Cell>) {
        push_i32(cells, r, 0, self.id);
        push_text(cells, r, 1, self.cifr.clone());
        push_text(cells, r, 2, self.full_name.clone());
        assert(cells_view(cells@) =~= cells_view(old(cells)@) + Self::row_cells(r, *self));
    }
}

pub open spec fn specialization_header() -> Seq<CellSpec> {
    seq![(0u32, 0u16, CellContent::Text("ID"@)), (0u32, 1u16, CellContent::Text("Шифр"@)), (0u32, 2u16, CellContent::Text("Полное название"@))]
}

/// The cell writes of this export.
pub open spec fn specialization_sheet(rows: Seq<SpecializationRow>) -> Seq<CellSpec> {
    table_cells(specialization_header(), rows)
}

/// Writes the specialization table to the worksheet. The column titles go on the first row, then one row per record,
/// in order.
pub fn export_specialization(ws: &mut Worksheet, rows: &Vec<SpecializationRow>)
    requires
        rows.len() <= max_data_rows(),
        forall|i: int| 0 <= i < rows.len() ==> SpecializationRow::fits(#[trigger] rows[i]),
    ensures
        sheet_streams_rows(*final(ws)) == sheet_streams_rows(*old(ws)),
        !sheet_streams_rows(*old(ws)) ==> sheet_agrees(*final(ws), apply_cells(sheet_model(*old(ws)), specialization_sheet(rows@))),
{
    proof {
        reveal_strlit("ID");
        reveal_strlit("Шифр");
        reveal_strlit("Полное название");
    }
    let header = header_cells(&[(0u16, "ID"), (1u16, "Шифр"), (2u16, "Полное название")]);
    assert(cells_view(header@) =~= specialization_header());
    let cells = sheet_cells(header, rows);
    write_cells(ws, &cells);
}

impl SheetRow for StudentListRow {
    open spec fn row_cells(r: u32, row: StudentListRow) -> Seq<CellSpec> {
        seq![
            (r, 0u16, CellContent::Number(row.id as int)),
            (r, 1u16, CellContent::Text(row.first_name@)),
            (r, 2u16, CellContent::Text(row.second_name@)),
            (r, 3u16, CellContent::Text(row.middle_name@)),
            (r, 4u16, CellContent::Text(row_group_text(row))),
        ]
    }

    open spec fn fits(row: StudentListRow) -> bool {
        text_fits(row.first_name@)
            && text_fits(row.second_name@)
            && text_fits(row.middle_name@)
            && text_fits(row_group_text(row))
    }

    proof fn lemma_cells_ok(r: u32, row: StudentListRow) {
    }

    fn push_cells(&self, r: u32, cells: &mut Vec<Cell>) {
        push_i32(cells, r, 0, self.id);
        push_text(cells, r, 1, self.first_name.clone());
        push_text(cells, r, 2, self.second_name.clone());
        push_text(cells, r, 3, self.middle_name.clone());
        push_text(cells, r, 4, group_name(self.cifr.as_str(), self.year, self.number));
        assert(cells_view(cells@) =~= cells_view(old(cells)@) + Self::row_cells(r, *self));
    }
}

pub open spec fn student_header() -> Seq<CellSpec> {
    seq![(0u32, 0u16, CellContent::Text("ID"@)), (0u32, 1u16, CellContent::Text("Имя"@)), (0u32, 2u16, CellContent::Text("Фамилия"@)), (0u32, 3u16, CellContent::Text("Отчетство"@)), (0u32, 4u16, CellContent::Text("Группа"@))]
}

/// The cell writes of this export.
pub open spec fn student_sheet(rows: Seq<StudentListRow>) -> Seq<CellSpec> {
    table_cells(student_header(), rows)
}

/// Writes the student table to the worksheet, each student's group by its name. The column titles go on the first row, then one row per record,
/// in order.
pub fn export_student(ws: &mut Worksheet, rows: &Vec<StudentListRow>)
    requires
        rows.len() <= max_data_rows(),
        forall|i: int| 0 <= i < rows.len() ==> StudentListRow::fits(#[trigger] rows[i]),
    ensures
        sheet_streams_rows(*final(ws)) == sheet_streams_rows(*old(ws)),
        !sheet_streams_rows(*old(ws)) ==> sheet_agrees(*final(ws), apply_cells(sheet_model(*old(ws)), student_sheet(rows@))),
{
    proof {
        reveal_strlit("ID");
        reveal_strlit("Имя");
        reveal_strlit("Фамилия");
        reveal_strlit("Отчетство");
        reveal_strlit("Группа");
    }
    let header = header_cells(&[(0u16, "ID"), (1u16, "Имя"), (2u16, "Фамилия"), (3u16, "Отчетство"), (4u16, "Группа")]);
    assert(cells_view(header@) =~= student_header());
    let cells = sheet_cells(header, rows);
    write_cells(ws, &cells);
}

impl SheetRow for SubjectRow {
    open spec fn row_cells(r: u32, row: SubjectRow) -> Seq<CellSpec> {
        seq![
            (r, 0u16, CellContent::Number(row.id as int)),
            (r, 1u16, CellContent::Text(row.name@)),
        ]
    }

    open spec fn fits(row: SubjectRow) -> bool {
        text_fits(row.name@)
    }

    proof fn lemma_cells_ok(r: u32, row: SubjectRow) {
    }

    fn push_cells(&self, r: u32, cells: &mut Vec<Cell>) {
        push_i32(cells, r, 0, self.id);
        push_text(cells, r, 1, self.name.clone());
        assert(cells_view(cells@) =~= cells_view(old(cells)@) + Self::row_cells(r, *self));
    }
}

pub open spec fn subject_header() -> Seq<CellSpec> {
    seq![(0u32, 0u16, CellContent::Text("ID"@)), (0u32, 1u16, CellContent::Text("Название"@))]
}

/// The cell writes of this export.
pub open spec fn subject_sheet(rows: Seq<SubjectRow>) -> Seq<CellSpec> {
    table_cells(subject_header(), rows)
}

/// Writes the subject table to the worksheet. The column titles go on the first row, then one row per record,
/// in order.
pub fn export_subject(ws: &mut Worksheet, rows: &Vec<SubjectRow>)
    requires
        rows.len() <= max_data_rows(),
        forall|i: int| 0 <= i < rows.len() ==> SubjectRow::fits(#[trigger] rows[i]),
    ensures
        sheet_streams_rows(*final(ws)) == sheet_streams_rows(*old(ws)),
        !sheet_streams_rows(*old(ws)) ==> sheet_agrees(*final(ws), apply_cells(sheet_model(*old(ws)), subject_sheet(rows@))),
{
    proof {
        reveal_strlit("ID");
        reveal_strlit("Название");
    }
    let header = header_cells(&[(0u16, "ID"), (1u16, "Название")]);
    assert(cells_view(header@) =~= subject_header());
    let cells = sheet_cells(header, rows);
    write_cells(ws, &cells);
}

impl SheetRow for AcademicPlanRow {
    open spec fn row_cells(r: u32, row: AcademicPlanRow) -> Seq<CellSpec> {
        seq![
            (r, 0u16, CellContent::Number(row.id as int)),
            (r, 1u16, CellContent::Text(row.specialization@)),
            (r, 2u16, CellContent::Text(row.subject@)),
            (r, 3u16, CellContent::Text(row.certification@)),
            (r, 4u16, CellContent::Number(row.hours as int)),
            (r, 5u16, CellContent::Number(row.semester as int)),
        ]
    }

    open spec fn fits(row: AcademicPlanRow) -> bool {
        text_fits(row.specialization@)
            && text_fits(row.subject@)
            && text_fits(row.certification@)
    }

    proof fn lemma_cells_ok(r: u32, row: AcademicPlanRow) {
    }

    fn push_cells(&self, r: u32, cells: &mut Vec<Cell>) {
        push_i32(cells, r, 0, self.id);
        push_text(cells, r, 1, self.specialization.clone());
        push_text(cells, r, 2, self.subject.clone());
        push_text(cells, r, 3, self.certification.clone());
        push_i64(cells, r, 4, self.hours);
        push_i64(cells, r, 5, self.semester);
        assert(cells_view(cells@) =~= cells_view(old(cells)@) + Self::row_cells(r, *self));
    }
}

pub open spec fn academic_plan_header() -> Seq<CellSpec> {
    seq![(0u32, 0u16, CellContent::Text("ID"@)), (0u32, 1u16, CellContent::Text("Название специальности"@)), (0u32, 2u16, CellContent::Text("Название предмета"@)), (0u32, 3u16, CellContent::Text("Вид аттестации"@)), (0u32, 4u16, CellContent::Text("Количество часов"@)), (0u32, 5u16, CellContent::Text("Семестр"@))]
}

/// The cell writes of this export.
pub open spec fn academic_plan_sheet(rows: Seq<AcademicPlanRow>) -> Seq<CellSpec> {
    table_cells(academic_plan_header(), rows)
}

/// Writes the academic plan to the worksheet. The column titles go on the first row, then one row per record,
/// in order.
pub fn export_academic_plan(ws: &mut Worksheet, rows: &Vec<AcademicPlanRow>)
    requires
        rows.len() <= max_data_rows(),
        forall|i: int| 0 <= i < rows.len() ==> AcademicPlanRow::fits(#[trigger] rows[i]),
    ensures
        sheet_streams_rows(*final(ws)) == sheet_streams_rows(*old(ws)),
        !sheet_streams_rows(*old(ws)) ==> sheet_agrees(*final(ws), apply_cells(sheet_model(*old(ws)), academic_plan_sheet(rows@))),
{
    proof {
        reveal_strlit("ID");
        reveal_strlit("Название специальности");
        reveal_strlit("Название предмета");
        reveal_strlit("Вид аттестации");
        reveal_strlit("Количество часов");
        reveal_strlit("Семестр");
    }
    let header = header_cells(&[(0u16, "ID"), (1u16, "Название специальности"), (2u16, "Название предмета"), (3u16, "Вид аттестации"), (4u16, "Количество часов"), (5u16, "Семестр")]);
    assert(cells_view(header@) =~= academic_plan_header());
    let cells = sheet_cells(header, rows);
    write_cells(ws, &cells);
}

impl SheetRow for StudentCardRow {
    open spec fn row_cells(r: u32, row: StudentCardRow) -> Seq<CellSpec> {
        seq![
            (r, 0u16, CellContent::Number(row.id as int)),
            (r, 1u16, CellContent::Text(row.first_name@)),
            (r, 2u16, CellContent::Text(row.second_name@)),
            (r, 3u16, CellContent::Text(row.subject@)),
            (r, 4u16, CellContent::Number(row.semester as int)),
            (r, 5u16, CellContent::Text(row.certification@)),
            (r, 6u16, CellContent::Text(mark_or_missing(row.mark))),
        ]
    }

    open spec fn fits(row: StudentCardRow) -> bool {
        text_fits(row.first_name@)
            && text_fits(row.second_name@)
            && text_fits(row.subject@)
            && text_fits(row.certification@)
            && text_fits(mark_or_missing(row.mark))
    }

    proof fn lemma_cells_ok(r: u32, row: StudentCardRow) {
    }

    fn push_cells(&self, r: u32, cells: &mut Vec<Cell>) {
        push_i32(cells, r, 0, self.id);
        push_text(cells, r, 1, self.first_name.clone());
        push_text(cells, r, 2, self.second_name.clone());
        push_text(cells, r, 3, self.subject.clone());
        push_i64(cells, r, 4, self.semester);
        push_text(cells, r, 5, self.certification.clone());
        push_text(cells, r, 6, mark_text(&self.mark));
        assert(cells_view(cells@) =~= cells_view(old(cells)@) + Self::row_cells(r, *self));
    }
}

pub open spec fn admin_marks_header() -> Seq<CellSpec> {
    seq![(0u32, 0u16, CellContent::Text("ID"@)), (0u32, 1u16, CellContent::Text("Имя"@)), (0u32, 2u16, CellContent::Text("Фамилия"@)), (0u32, 3u16, CellContent::Text("Предмет"@)), (0u32, 4u16, CellContent::Text("Семестр"@)), (0u32, 5u16, CellContent::Text("Вид аттестации"@)), (0u32, 6u16, CellContent::Text("Оценка"@))]
}

/// The cell writes of this export.
pub open spec fn admin_marks_sheet(rows: Seq<StudentCardRow>) -> Seq<CellSpec> {
    table_cells(admin_marks_header(), rows)
}

/// Writes a group's student card to the worksheet, with "Нет оценки" where there is no mark. The column titles go on the first row, then one row per record,
/// in order.
pub fn write_admin_marks(ws: &mut Worksheet, rows: &Vec<StudentCardRow>)
    requires
        rows.len() <= max_data_rows(),
        forall|i: int| 0 <= i < rows.len() ==> StudentCardRow::fits(#[trigger] rows[i]),
    ensures
        sheet_streams_rows(*final(ws)) == sheet_streams_rows(*old(ws)),
        !sheet_streams_rows(*old(ws)) ==> sheet_agrees(*final(ws), apply_cells(sheet_model(*old(ws)), admin_marks_sheet(rows@))),
{
    proof {
        reveal_strlit("ID");
        reveal_strlit("Имя");
        reveal_strlit("Фамилия");
        reveal_strlit("Предмет");
        reveal_strlit("Семестр");
        reveal_strlit("Вид аттестации");
        reveal_strlit("Оценка");
    }
    let header = header_cells(&[(0u16, "ID"), (1u16, "Имя"), (2u16, "Фамилия"), (3u16, "Предмет"), (4u16, "Семестр"), (5u16, "Вид аттестации"), (6u16, "Оценка")]);
    assert(cells_view(header@) =~= admin_marks_header());
    let cells = sheet_cells(header, rows);
    write_cells(ws, &cells);
}

impl SheetRow for GroupMemberRow {
    open spec fn row_cells(r: u32, row: GroupMemberRow) -> Seq<CellSpec> {
        seq![
            (r, 0u16, CellContent::Text(three_words(row.second_name@, row.first_name@, row.middle_name@))),
        ]
    }

    open spec fn fits(row: GroupMemberRow) -> bool {
        text_fits(three_words(row.second_name@, row.first_name@, row.middle_name@))
    }

    proof fn lemma_cells_ok(r: u32, row: GroupMemberRow) {
    }

    fn push_cells(&self, r: u32, cells: &mut Vec<Cell>) {
        push_text(cells, r, 0, join_three_words(self.second_name.as_str(), self.first_name.as_str(), self.middle_name.as_str()));
        assert(cells_view(cells@) =~= cells_view(old(cells)@) + Self::row_cells(r, *self));
    }
}

pub open spec fn student_group_header() -> Seq<CellSpec> {
    seq![(0u32, 0u16, CellContent::Text("ФИО"@))]
}

/// The cell writes of this export.
pub open spec fn student_group_sheet(rows: Seq<GroupMemberRow>) -> Seq<CellSpec> {
    table_cells(student_group_header(), rows)
}

/// Writes the members of a group to the worksheet, one full name (second, first, middle) per row. The column titles go on the first row, then one row per record,
/// in order.
pub fn write_student_group(ws: &mut Worksheet, rows: &Vec<GroupMemberRow>)
    requires
        rows.len() <= max_data_rows(),
        forall|i: int| 0 <= i < rows.len() ==> GroupMemberRow::fits(#[trigger] rows[i]),
    ensures
        sheet_streams_rows(*final(ws)) == sheet_streams_rows(*old(ws)),
        !sheet_streams_rows(*old(ws)) ==> sheet_agrees(*final(ws), apply_cells(sheet_model(*old(ws)), student_group_sheet(rows@))),
{
    proof {
        reveal_strlit("ФИО");
    }
    let header = header_cells(&[(0u16, "ФИО")]);
    assert(cells_view(header@) =~= student_group_header());
    let cells = sheet_cells(header, rows);
    write_cells(ws, &cells);
}

impl SheetRow for StudentPlanRow {
    open spec fn row_cells(r: u32, row: StudentPlanRow) -> Seq<CellSpec> {
        seq![
            (r, 0u16, CellContent::Text(row.subject@)),
            (r, 1u16, CellContent::Number(row.semester as int)),
            (r, 2u16, CellContent::Number(row.hours as int)),
            (r, 3u16, CellContent::Text(row.certification@)),
        ]
    }

    open spec fn fits(row: StudentPlanRow) -> bool {
        text_fits(row.subject@)
            && text_fits(row.certification@)
    }

    proof fn lemma_cells_ok(r: u32, row: StudentPlanRow) {
    }

    fn push_cells(&self, r: u32, cells: &mut Vec<Cell>) {
        push_text(cells, r, 0, self.subject.clone());
        push_i64(cells, r, 1, self.semester);
        push_i64(cells, r, 2, self.hours);
        push_text(cells, r, 3, self.certification.clone());
        assert(cells_view(cells@) =~= cells_view(old(cells)@) + Self::row_cells(r, *self));
    }
}

pub open spec fn student_plan_header() -> Seq<CellSpec> {
    seq![(0u32, 0u16, CellContent::Text("Предмет"@)), (0u32, 1u16, CellContent::Text("Семестр"@)), (0u32, 2u16, CellContent::Text("Часы"@)), (0u32, 3u16, CellContent::Text("Вид аттестации"@))]
}

/// The cell writes of this export.
pub open spec fn student_plan_sheet(rows: Seq<StudentPlanRow>) -> Seq<CellSpec> {
    table_cells(student_plan_header(), rows)
}

/// Writes a student's plan for a course to the worksheet. The column titles go on the first row, then one row per record,
/// in order.
pub fn write_student_plan(ws: &mut Worksheet, rows: &Vec<StudentPlanRow>)
    requires
        rows.len() <= max_data_rows(),
        forall|i: int| 0 <= i < rows.len() ==> StudentPlanRow::fits(#[trigger] rows[i]),
    ensures
        sheet_streams_rows(*final(ws)) == sheet_streams_rows(*old(ws)),
        !sheet_streams_rows(*old(ws)) ==> sheet_agrees(*final(ws), apply_cells(sheet_model(*old(ws)), student_plan_sheet(rows@))),
{
    proof {
        reveal_strlit("Предмет");
        reveal_strlit("Семестр");
        reveal_strlit("Часы");
        reveal_strlit("Вид аттестации");
    }
    let header = header_cells(&[(0u16, "Предмет"), (1u16, "Семестр"), (2u16, "Часы"), (3u16, "Вид аттестации")]);
    assert(cells_view(header@) =~= student_plan_header());
    let cells = sheet_cells(header, rows);
    write_cells(ws, &cells);
}

impl SheetRow for StudentMarkRow {
    open spec fn row_cells(r: u32, row: StudentMarkRow) -> Seq<CellSpec> {
        seq![
            (r, 0u16, CellContent::Text(row.subject@)),
            (r, 1u16, CellContent::Number(row.semester as int)),
            (r, 2u16, CellContent::Number(row.hours as int)),
            (r, 3u16, CellContent::Text(row.certification@)),
            (r, 4u16, CellContent::Text(mark_or_missing(row.mark))),
        ]
    }

    open spec fn fits(row: StudentMarkRow) -> bool {
        text_fits(row.subject@)
            && text_fits(row.certification@)
            && text_fits(mark_or_missing(row.mark))
    }

    proof fn lemma_cells_ok(r: u32, row: StudentMarkRow) {
    }

    fn push_cells(&self, r: u32, cells: &mut Vec<Cell>) {
        push_text(cells, r, 0, self.subject.clone());
        push_i64(cells, r, 1, self.semester);
        push_i64(cells, r, 2, self.hours);
        push_text(cells, r, 3, self.certification.clone());
        push_text(cells, r, 4, mark_text(&self.mark));
        assert(cells_view(cells@) =~= cells_view(old(cells)@) + Self::row_cells(r, *self));
    }
}

pub open spec fn student_marks_header() -> Seq<CellSpec> {
    seq![(0u32, 0u16, CellContent::Text("Предмет"@)), (0u32, 1u16, CellContent::Text("Семестр"@)), (0u32, 2u16, CellContent::Text("Часы"@)), (0u32, 3u16, CellContent::Text("Вид аттестации"@)), (0u32, 3u16, CellContent::Text("Оценка"@))]
}

/// The cell writes of this export.
pub open spec fn student_marks_sheet(rows: Seq<StudentMarkRow>) -> Seq<CellSpec> {
    table_cells(student_marks_header(), rows)
}

/// Writes a student's marks to the worksheet; its header writes "Оценка" over "Вид аттестации" in the fourth column and leaves the fifth, which holds the marks, without a title. The column titles go on the first row, then one row per record,
/// in order.
pub fn write_student_marks(ws: &mut Worksheet, rows: &Vec<StudentMarkRow>)
    requires
        rows.len() <= max_data_rows(),
        forall|i: int| 0 <= i < rows.len() ==> StudentMarkRow::fits(#[trigger] rows[i]),
    ensures
        sheet_streams_rows(*final(ws)) == sheet_streams_rows(*old(ws)),
        !sheet_streams_rows(*old(ws)) ==> sheet_agrees(*final(ws), apply_cells(sheet_model(*old(ws)), student_marks_sheet(rows@))),
{
    proof {
        reveal_strlit("Предмет");
        reveal_strlit("Семестр");
        reveal_strlit("Часы");
        reveal_strlit("Вид аттестации");
        reveal_strlit("Оценка");
    }
    let header = header_cells(&[(0u16, "Предмет"), (1u16, "Семестр"), (2u16, "Часы"), (3u16, "Вид аттестации"), (3u16, "Оценка")]);
    assert(cells_view(header@) =~= student_marks_header());
    let cells = sheet_cells(header, rows);
    write_cells(ws, &cells);
}

/// The text that a cell shows: its text, or the numeral of its number.
pub open spec fn shown_text(c: CellContent) -> Seq<char> {
    match c {
        CellContent::Text(s) => s,
        CellContent::Number(v) => dec_int(v),
    }
}

/// The header stays first in the cell writes of an export.
proof fn lemma_table_cells_header<R: SheetRow>(header: Seq<CellSpec>, rows: Seq<R>)
    ensures
        table_cells(header, rows).len() >= header.len(),
        table_cells(header, rows).take(header.len() as int) == header,
    decreases rows.len(),
{
    if rows.len() > 0 {
        lemma_table_cells_header(header, rows.drop_last());
        let a = table_cells(header, rows.drop_last());
        let b = R::row_cells(rows.len() as u32, rows.last());
        assert((a + b).take(header.len() as int) =~= a.take(header.len() as int));
    }
}

/// With records of `k` cells each, the cells of the record at index `i`
/// come right after the header and the `i` records before it.
proof fn lemma_table_cells_row<R: SheetRow>(header: Seq<CellSpec>, rows: Seq<R>, k: int, i: int)
    requires
        rows.len() <= max_data_rows(),
        0 <= i < rows.len(),
        0 <= k,
        forall|r: u32, row: R| #[trigger] R::row_cells(r, row).len() == k,
    ensures
        table_cells(header, rows).len() == header.len() + k * rows.len(),
        table_cells(header, rows).subrange(header.len() + k * i, header.len() + k * i + k)
            == R::row_cells((i + 1) as u32, rows[i]),
    decreases rows.len(),
{
    let n = rows.len() as int;
    let h = header.len() as int;
    let prefix = rows.drop_last();
    let a = table_cells(header, prefix);
    let b = R::row_cells(n as u32, rows.last());
    assert(table_cells(header, rows) == a + b);
    assert(k * n == k * (n - 1) + k) by (nonlinear_arith);
    if n == 1 {
        assert(a == header);
        assert(k * i == 0) by (nonlinear_arith)
            requires
                i == 0,
        ;
        assert((a + b).subrange(h, h + k) =~= b);
    } else {
        lemma_table_cells_row(header, prefix, k, 0);
        if i < n - 1 {
            lemma_table_cells_row(header, prefix, k, i);
            assert(prefix[i] == rows[i]);
            assert(k * i + k <= k * (n - 1)) by (nonlinear_arith)
                requires
                    i + 1 <= n - 1,
                    k >= 0,
            ;
            assert(k * i >= 0) by (nonlinear_arith)
                requires
                    i >= 0,
                    k >= 0,
            ;
            assert((a + b).subrange(h + k * i, h + k * i + k) =~= a.subrange(h + k * i, h + k * i + k));
        } else {
            assert((a + b).subrange(h + k * i, h + k * i + k) =~= b);
        }
    }
}

/// An export whose records each give `k` cells, in columns `0..k` of the
/// record's sheet row, that show `texts` of the record: its header comes
/// first, and the record at index `i` fills sheet row `i + 1` with `texts`
/// of that record, column for column.
proof fn lemma_table_cells_show<R: SheetRow>(
    header: Seq<CellSpec>,
    rows: Seq<R>,
    k: int,
    texts: spec_fn(R) -> Seq<Seq<char>>,
)
    requires
        rows.len() <= max_data_rows(),
        0 <= k,
        forall|r: u32, row: R| #[trigger] R::row_cells(r, row).len() == k,
        forall|r: u32, row: R| #![trigger R::row_cells(r, row)]
            R::row_cells(r, row).map_values(|c: CellSpec| shown_text(c.2)) == texts(row),
        forall|r: u32, row: R, j: int|
            0 <= j < k ==> (#[trigger] R::row_cells(r, row)[j]).0 == r && R::row_cells(r, row)[j].1 == j,
    ensures
        table_cells(header, rows).len() == header.len() + k * rows.len(),
        table_cells(header, rows).take(header.len() as int) == header,
        forall|i: int| 0 <= i < rows.len() ==> {
            let written = table_cells(header, rows).subrange(header.len() + k * i, header.len() + k * i + k);
            &&& written == R::row_cells((i + 1) as u32, #[trigger] rows[i])
            &&& written.map_values(|c: CellSpec| shown_text(c.2)) == texts(rows[i])
            &&& forall|j: int| 0 <= j < k ==> (#[trigger] written[j]).0 == i + 1 && written[j].1 == j
        },
{
    lemma_table_cells_header(header, rows);
    if rows.len() == 0 {
        assert(table_cells(header, rows) == header);
    } else {
        lemma_table_cells_row(header, rows, k, 0);
    }
    assert forall|i: int| 0 <= i < rows.len() implies {
        let written = table_cells(header, rows).subrange(header.len() + k * i, header.len() + k * i + k);
        &&& written == R::row_cells((i + 1) as u32, #[trigger] rows[i])
        &&& written.map_values(|c: CellSpec| shown_text(c.2)) == texts(rows[i])
        &&& forall|j: int| 0 <= j < k ==> (#[trigger] written[j]).0 == i + 1 && written[j].1 == j
    } by {
        lemma_table_cells_row(header, rows, k, i);
        let written = table_cells(header, rows).subrange(header.len() + k * i, header.len() + k * i + k);
        assert(((i + 1) as u32) as int == i + 1);
        assert forall|j: int| 0 <= j < k implies (#[trigger] written[j]).0 == i + 1 && written[j].1 == j by {
            assert(R::row_cells((i + 1) as u32, rows[i])[j].0 == (i + 1) as u32);
        }
    }
}

/// Exporting a student's plan writes, under the column titles, the very
/// rows that the plan window shows for the same query rows: row `i` on sheet
/// row `i + 1`, cell for cell and in order, semester and hours as numbers,
/// and nothing after the last row.
pub proof fn plan_export_matches_plan_window(rows: Seq<StudentPlanRow>)
    requires
        rows.len() <= max_data_rows(),
    ensures
        student_plan_sheet(rows).len() == 4 + 4 * rows.len(),
        student_plan_sheet(rows).take(4) == student_plan_header(),
        forall|i: int| 0 <= i < rows.len() ==> {
            let written = student_plan_sheet(rows).subrange(4 + 4 * i, 8 + 4 * i);
            &&& written.map_values(|c: CellSpec| shown_text(c.2)) == plan_row_texts(#[trigger] rows[i])
            &&& forall|j: int| 0 <= j < 4 ==> (#[trigger] written[j]).0 == i + 1 && written[j].1 == j
            &&& written[1].2 is Number && written[2].2 is Number
        },
{
    assert forall|r: u32, row: StudentPlanRow| #![trigger StudentPlanRow::row_cells(r, row)]
        StudentPlanRow::row_cells(r, row).map_values(|c: CellSpec| shown_text(c.2)) == plan_row_texts(row) by {
        assert(StudentPlanRow::row_cells(r, row).map_values(|c: CellSpec| shown_text(c.2)) =~= plan_row_texts(row));
    }
    lemma_table_cells_show(student_plan_header(), rows, 4, |row: StudentPlanRow| plan_row_texts(row));
    assert forall|i: int| #![trigger rows[i]] 0 <= i < rows.len() implies {
        let written = student_plan_sheet(rows).subrange(4 + 4 * i, 8 + 4 * i);
        written[1].2 is Number && written[2].2 is Number
    } by {
        let written = student_plan_sheet(rows).subrange(4 + 4 * i, 8 + 4 * i);
        assert(written == StudentPlanRow::row_cells((i + 1) as u32, rows[i]));
    }
}

/// Exporting the group table writes the group table's column titles on the
/// first sheet row and, on sheet row `i + 1`, what the group table shows for
/// the group at index `i`, column for column: the name under "Название", the
/// specialization under "Специальность"; the ID is a number cell.
pub proof fn group_export_matches_group_table(rows: Seq<GroupListRow>)
    requires
        rows.len() <= max_data_rows(),
    ensures
        group_sheet(rows).len() == 3 + 3 * rows.len(),
        forall|j: int| 0 <= j < 3 ==> #[trigger] group_sheet(rows)[j] == (0u32, j as u16, CellContent::Text(group::column_titles()[j])),
        forall|i: int| 0 <= i < rows.len() ==> {
            let written = group_sheet(rows).subrange(3 + 3 * i, 6 + 3 * i);
            &&& written.map_values(|c: CellSpec| shown_text(c.2)) == group::row_texts(#[trigger] rows[i])
            &&& forall|j: int| 0 <= j < 3 ==> (#[trigger] written[j]).0 == i + 1 && written[j].1 == j
            &&& written[0].2 is Number
        },
{
    assert forall|r: u32, row: GroupListRow| #![trigger GroupListRow::row_cells(r, row)]
        GroupListRow::row_cells(r, row).map_values(|c: CellSpec| shown_text(c.2)) == group::row_texts(row) by {
        assert(GroupListRow::row_cells(r, row).map_values(|c: CellSpec| shown_text(c.2)) =~= group::row_texts(row));
    }
    lemma_table_cells_show(group_header(), rows, 3, |row: GroupListRow| group::row_texts(row));
    assert forall|i: int| #![trigger rows[i]] 0 <= i < rows.len() implies {
        let written = group_sheet(rows).subrange(3 + 3 * i, 6 + 3 * i);
        written[0].2 is Number
    } by {
        let written = group_sheet(rows).subrange(3 + 3 * i, 6 + 3 * i);
        assert(written == GroupListRow::row_cells((i + 1) as u32, rows[i]));
    }
    assert forall|j: int| 0 <= j < 3 implies #[trigger] group_sheet(rows)[j] == (0u32, j as u16, CellContent::Text(group::column_titles()[j])) by {
        assert(group_sheet(rows).take(3)[j] == group_sheet(rows)[j]);
    }
}

/// Exporting the specialization table writes that table's column titles on
/// the first sheet row and, on sheet row `i + 1`, what the table shows for
/// the specialization at index `i`, column for column: the cipher under
/// "Шифр", the full name under "Полное название"; the ID is a number cell.
pub proof fn specialization_export_matches_specialization_table(rows: Seq<SpecializationRow>)
    requires
        rows.len() <= max_data_rows(),
    ensures
        specialization_sheet(rows).len() == 3 + 3 * rows.len(),
        forall|j: int| 0 <= j < 3 ==> #[trigger] specialization_sheet(rows)[j] == (0u32, j as u16, CellContent::Text(specialization::column_titles()[j])),
        forall|i: int| 0 <= i < rows.len() ==> {
            let written = specialization_sheet(rows).subrange(3 + 3 * i, 6 + 3 * i);
            &&& written.map_values(|c: CellSpec| shown_text(c.2)) == specialization::row_texts(#[trigger] rows[i])
            &&& forall|j: int| 0 <= j < 3 ==> (#[trigger] written[j]).0 == i + 1 && written[j].1 == j
            &&& written[0].2 is Number
        },
{
    assert forall|r: u32, row: SpecializationRow| #![trigger SpecializationRow::row_cells(r, row)]
        SpecializationRow::row_cells(r, row).map_values(|c: CellSpec| shown_text(c.2)) == specialization::row_texts(row) by {
        assert(SpecializationRow::row_cells(r, row).map_values(|c: CellSpec| shown_text(c.2)) =~= specialization::row_texts(row));
    }
    lemma_table_cells_show(specialization_header(), rows, 3, |row: SpecializationRow| specialization::row_texts(row));
    assert forall|i: int| #![trigger rows[i]] 0 <= i < rows.len() implies {
        let written = specialization_sheet(rows).subrange(3 + 3 * i, 6 + 3 * i);
        written[0].2 is Number
    } by {
        let written = specialization_sheet(rows).subrange(3 + 3 * i, 6 + 3 * i);
        assert(written == SpecializationRow::row_cells((i + 1) as u32, rows[i]));
    }
    assert forall|j: int| 0 <= j < 3 implies #[trigger] specialization_sheet(rows)[j] == (0u32, j as u16, CellContent::Text(specialization::column_titles()[j])) by {
        assert(specialization_sheet(rows).take(3)[j] == specialization_sheet(rows)[j]);
    }
}

/// Exporting the student table writes the student table's column titles on
/// the first sheet row and, on sheet row `i + 1`, what the student table
/// shows for the student at index `i`, column for column: the first name
/// under "Имя", the second name under "Фамилия", the middle name, then the
/// group name; the ID is a number cell.
pub proof fn student_export_matches_student_table(rows: Seq<StudentListRow>)
    requires
        rows.len() <= max_data_rows(),
    ensures
        student_sheet(rows).len() == 5 + 5 * rows.len(),
        forall|j: int| 0 <= j < 5 ==> #[trigger] student_sheet(rows)[j] == (0u32, j as u16, CellContent::Text(student::column_titles()[j])),
        forall|i: int| 0 <= i < rows.len() ==> {
            let written = student_sheet(rows).subrange(5 + 5 * i, 10 + 5 * i);
            &&& written.map_values(|c: CellSpec| shown_text(c.2)) == student::row_texts(#[trigger] rows[i])
            &&& forall|j: int| 0 <= j < 5 ==> (#[trigger] written[j]).0 == i + 1 && written[j].1 == j
            &&& written[0].2 is Number
        },
{
    assert forall|r: u32, row: StudentListRow| #![trigger StudentListRow::row_cells(r, row)]
        StudentListRow::row_cells(r, row).map_values(|c: CellSpec| shown_text(c.2)) == student::row_texts(row) by {
        assert(StudentListRow::row_cells(r, row).map_values(|c: CellSpec| shown_text(c.2)) =~= student::row_texts(row));
    }
    lemma_table_cells_show(student_header(), rows, 5, |row: StudentListRow| student::row_texts(row));
    assert forall|i: int| #![trigger rows[i]] 0 <= i < rows.len() implies {
        let written = student_sheet(rows).subrange(5 + 5 * i, 10 + 5 * i);
        written[0].2 is Number
    } by {
        let written = student_sheet(rows).subrange(5 + 5 * i, 10 + 5 * i);
        assert(written == StudentListRow::row_cells((i + 1) as u32, rows[i]));
    }
    assert forall|j: int| 0 <= j < 5 implies #[trigger] student_sheet(rows)[j] == (0u32, j as u16, CellContent::Text(student::column_titles()[j])) by {
        assert(student_sheet(rows).take(5)[j] == student_sheet(rows)[j]);
    }
}

/// Exporting the subject table writes the titles "ID" and "Название" on the
/// first sheet row and, on sheet row `i + 1`, what the subject table shows
/// for the subject at index `i`: its ID, as a number cell, and its name.
pub proof fn subject_export_matches_subject_table(rows: Seq<SubjectRow>)
    requires
        rows.len() <= max_data_rows(),
    ensures
        subject_sheet(rows).len() == 2 + 2 * rows.len(),
        subject_sheet(rows).take(2).map_values(|c: CellSpec| (c.0, c.1, shown_text(c.2)))
            == seq![(0u32, 0u16, "ID"@), (0u32, 1u16, "Название"@)],
        forall|i: int| 0 <= i < rows.len() ==> {
            let written = subject_sheet(rows).subrange(2 + 2 * i, 4 + 2 * i);
            &&& written.map_values(|c: CellSpec| shown_text(c.2)) == subject::row_texts(#[trigger] rows[i])
            &&& forall|j: int| 0 <= j < 2 ==> (#[trigger] written[j]).0 == i + 1 && written[j].1 == j
            &&& written[0].2 is Number
        },
{
    assert forall|r: u32, row: SubjectRow| #![trigger SubjectRow::row_cells(r, row)]
        SubjectRow::row_cells(r, row).map_values(|c: CellSpec| shown_text(c.2)) == subject::row_texts(row) by {
        assert(SubjectRow::row_cells(r, row).map_values(|c: CellSpec| shown_text(c.2)) =~= subject::row_texts(row));
    }
    lemma_table_cells_show(subject_header(), rows, 2, |row: SubjectRow| subject::row_texts(row));
    assert forall|i: int| #![trigger rows[i]] 0 <= i < rows.len() implies {
        let written = subject_sheet(rows).subrange(2 + 2 * i, 4 + 2 * i);
        written[0].2 is Number
    } by {
        let written = subject_sheet(rows).subrange(2 + 2 * i, 4 + 2 * i);
        assert(written == SubjectRow::row_cells((i + 1) as u32, rows[i]));
    }
    assert(subject_sheet(rows).take(2).map_values(|c: CellSpec| (c.0, c.1, shown_text(c.2)))
        =~= seq![(0u32, 0u16, "ID"@), (0u32, 1u16, "Название"@)]);
}

/// Exporting the academic plan writes the plan table's column titles on the
/// first sheet row and, on sheet row `i + 1`, what the plan table shows for
/// the entry at index `i`, column for column: the hours under "Количество
/// часов" and the semester under "Семестр", both, like the ID, as number
/// cells.
pub proof fn academic_plan_export_matches_plan_table(rows: Seq<AcademicPlanRow>)
    requires
        rows.len() <= max_data_rows(),
    ensures
        academic_plan_sheet(rows).len() == 6 + 6 * rows.len(),
        forall|j: int| 0 <= j < 6 ==> #[trigger] academic_plan_sheet(rows)[j] == (0u32, j as u16, CellContent::Text(academic_plan::column_titles()[j])),
        forall|i: int| 0 <= i < rows.len() ==> {
            let written = academic_plan_sheet(rows).subrange(6 + 6 * i, 12 + 6 * i);
            &&& written.map_values(|c: CellSpec| shown_text(c.2)) == academic_plan::row_texts(#[trigger] rows[i])
            &&& forall|j: int| 0 <= j < 6 ==> (#[trigger] written[j]).0 == i + 1 && written[j].1 == j
            &&& written[0].2 is Number && written[4].2 is Number && written[5].2 is Number
        },
{
    assert forall|r: u32, row: AcademicPlanRow| #![trigger AcademicPlanRow::row_cells(r, row)]
        AcademicPlanRow::row_cells(r, row).map_values(|c: CellSpec| shown_text(c.2)) == academic_plan::row_texts(row) by {
        assert(AcademicPlanRow::row_cells(r, row).map_values(|c: CellSpec| shown_text(c.2)) =~= academic_plan::row_texts(row));
    }
    lemma_table_cells_show(academic_plan_header(), rows, 6, |row: AcademicPlanRow| academic_plan::row_texts(row));
    assert forall|i: int| #![trigger rows[i]] 0 <= i < rows.len() implies {
        let written = academic_plan_sheet(rows).subrange(6 + 6 * i, 12 + 6 * i);
        written[0].2 is Number && written[4].2 is Number && written[5].2 is Number
    } by {
        let written = academic_plan_sheet(rows).subrange(6 + 6 * i, 12 + 6 * i);
        assert(written == AcademicPlanRow::row_cells((i + 1) as u32, rows[i]));
    }
    assert forall|j: int| 0 <= j < 6 implies #[trigger] academic_plan_sheet(rows)[j] == (0u32, j as u16, CellContent::Text(academic_plan::column_titles()[j])) by {
        assert(academic_plan_sheet(rows).take(6)[j] == academic_plan_sheet(rows)[j]);
    }
}

/// Exporting a group's student card writes the titles "ID", "Имя",
/// "Фамилия", "Предмет", "Семестр", "Вид аттестации", "Оценка" on the first
/// sheet row and, on sheet row `i + 1`, what the student card shows for the
/// row at index `i`, column for column: the first name under "Имя", the
/// second name under "Фамилия", the mark or "Нет оценки" under "Оценка"; the
/// ID and the semester are number cells.
pub proof fn admin_marks_export_matches_student_card(rows: Seq<StudentCardRow>)
    requires
        rows.len() <= max_data_rows(),
    ensures
        admin_marks_sheet(rows).len() == 7 + 7 * rows.len(),
        admin_marks_sheet(rows).take(7).map_values(|c: CellSpec| (c.0, c.1, shown_text(c.2)))
            == seq![(0u32, 0u16, "ID"@), (0u32, 1u16, "Имя"@), (0u32, 2u16, "Фамилия"@), (0u32, 3u16, "Предмет"@), (0u32, 4u16, "Семестр"@), (0u32, 5u16, "Вид аттестации"@), (0u32, 6u16, "Оценка"@)],
        forall|i: int| 0 <= i < rows.len() ==> {
            let written = admin_marks_sheet(rows).subrange(7 + 7 * i, 14 + 7 * i);
            &&& written.map_values(|c: CellSpec| shown_text(c.2)) == student_card::card_row_texts(#[trigger] rows[i])
            &&& forall|j: int| 0 <= j < 7 ==> (#[trigger] written[j]).0 == i + 1 && written[j].1 == j
            &&& written[0].2 is Number && written[4].2 is Number
        },
{
    assert forall|r: u32, row: StudentCardRow| #![trigger StudentCardRow::row_cells(r, row)]
        StudentCardRow::row_cells(r, row).map_values(|c: CellSpec| shown_text(c.2)) == student_card::card_row_texts(row) by {
        assert(StudentCardRow::row_cells(r, row).map_values(|c: CellSpec| shown_text(c.2)) =~= student_card::card_row_texts(row));
    }
    lemma_table_cells_show(admin_marks_header(), rows, 7, |row: StudentCardRow| student_card::card_row_texts(row));
    assert forall|i: int| #![trigger rows[i]] 0 <= i < rows.len() implies {
        let written = admin_marks_sheet(rows).subrange(7 + 7 * i, 14 + 7 * i);
        written[0].2 is Number && written[4].2 is Number
    } by {
        let written = admin_marks_sheet(rows).subrange(7 + 7 * i, 14 + 7 * i);
        assert(written == StudentCardRow::row_cells((i + 1) as u32, rows[i]));
    }
    assert(admin_marks_sheet(rows).take(7).map_values(|c: CellSpec| (c.0, c.1, shown_text(c.2)))
        =~= seq![(0u32, 0u16, "ID"@), (0u32, 1u16, "Имя"@), (0u32, 2u16, "Фамилия"@), (0u32, 3u16, "Предмет"@), (0u32, 4u16, "Семестр"@), (0u32, 5u16, "Вид аттестации"@), (0u32, 6u16, "Оценка"@)]);
}

/// Exporting the members of a group writes the title "ФИО" on the first
/// sheet row and, on sheet row `i + 1`, the full name that the group window
/// shows for the member at index `i`.
pub proof fn group_members_export_matches_group_window(rows: Seq<GroupMemberRow>)
    requires
        rows.len() <= max_data_rows(),
    ensures
        student_group_sheet(rows).len() == 1 + 1 * rows.len(),
        student_group_sheet(rows).take(1).map_values(|c: CellSpec| (c.0, c.1, shown_text(c.2)))
            == seq![(0u32, 0u16, "ФИО"@)],
        forall|i: int| 0 <= i < rows.len() ==> {
            let written = student_group_sheet(rows).subrange(1 + 1 * i, 2 + 1 * i);
            &&& written.map_values(|c: CellSpec| shown_text(c.2)) == group::member_row_texts(#[trigger] rows[i])
            &&& forall|j: int| 0 <= j < 1 ==> (#[trigger] written[j]).0 == i + 1 && written[j].1 == j
        },
{
    assert forall|r: u32, row: GroupMemberRow| #![trigger GroupMemberRow::row_cells(r, row)]
        GroupMemberRow::row_cells(r, row).map_values(|c: CellSpec| shown_text(c.2)) == group::member_row_texts(row) by {
        assert(GroupMemberRow::row_cells(r, row).map_values(|c: CellSpec| shown_text(c.2)) =~= group::member_row_texts(row));
    }
    lemma_table_cells_show(student_group_header(), rows, 1, |row: GroupMemberRow| group::member_row_texts(row));
    assert(student_group_sheet(rows).take(1).map_values(|c: CellSpec| (c.0, c.1, shown_text(c.2)))
        =~= seq![(0u32, 0u16, "ФИО"@)]);
}

/// Exporting a student's marks writes "Предмет", "Семестр", "Часы" over the
/// first three columns of the first sheet row, then "Вид аттестации" and,
/// over it, "Оценка" in the fourth; on sheet row `i + 1` it writes what the
/// marks window shows for the row at index `i`, column for column, the
/// semester and hours as number cells and the mark or "Нет оценки" in the
/// fifth column.
pub proof fn marks_export_matches_marks_window(rows: Seq<StudentMarkRow>)
    requires
        rows.len() <= max_data_rows(),
    ensures
        student_marks_sheet(rows).len() == 5 + 5 * rows.len(),
        student_marks_sheet(rows).take(5).map_values(|c: CellSpec| (c.0, c.1, shown_text(c.2)))
            == seq![(0u32, 0u16, "Предмет"@), (0u32, 1u16, "Семестр"@), (0u32, 2u16, "Часы"@), (0u32, 3u16, "Вид аттестации"@), (0u32, 3u16, "Оценка"@)],
        forall|i: int| 0 <= i < rows.len() ==> {
            let written = student_marks_sheet(rows).subrange(5 + 5 * i, 10 + 5 * i);
            &&& written.map_values(|c: CellSpec| shown_text(c.2)) == student_card::mark_row_texts(#[trigger] rows[i])
            &&& forall|j: int| 0 <= j < 5 ==> (#[trigger] written[j]).0 == i + 1 && written[j].1 == j
            &&& written[1].2 is Number && written[2].2 is Number
        },
{
    assert forall|r: u32, row: StudentMarkRow| #![trigger StudentMarkRow::row_cells(r, row)]
        StudentMarkRow::row_cells(r, row).map_values(|c: CellSpec| shown_text(c.2)) == student_card::mark_row_texts(row) by {
        assert(StudentMarkRow::row_cells(r, row).map_values(|c: CellSpec| shown_text(c.2)) =~= student_card::mark_row_texts(row));
    }
    lemma_table_cells_show(student_marks_header(), rows, 5, |row: StudentMarkRow| student_card::mark_row_texts(row));
    assert forall|i: int| #![trigger rows[i]] 0 <= i < rows.len() implies {
        let written = student_marks_sheet(rows).subrange(5 + 5 * i, 10 + 5 * i);
        written[1].2 is Number && written[2].2 is Number
    } by {
        let written = student_marks_sheet(rows).subrange(5 + 5 * i, 10 + 5 * i);
        assert(written == StudentMarkRow::row_cells((i + 1) as u32, rows[i]));
    }
    assert(student_marks_sheet(rows).take(5).map_values(|c: CellSpec| (c.0, c.1, shown_text(c.2)))
        =~= seq![(0u32, 0u16, "Предмет"@), (0u32, 1u16, "Семестр"@), (0u32, 2u16, "Часы"@), (0u32, 3u16, "Вид аттестации"@), (0u32, 3u16, "Оценка"@)]);
}

} // verus!
