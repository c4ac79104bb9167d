//! Subjects.
use vstd::prelude::*;
use crate::tables::{TableEvent, TableAction, titles, row_has_cells};
use crate::text::{dec_int, push_int, i64_to_string, parse_i64, parse_i64_spec};

verus! {

pub open spec fn title() -> Seq<char> {
    "Предметы"@
}

/// The column titles of the subject table.
pub fn get_colums() -> (r: Vec<String>)
    ensures
        r.len() == 2,
        r[0]@ == "ID"@,
        r[1]@ == "Шифр"@,
{
    titles(&["ID", "Шифр"])
}

pub open spec fn list_sql() -> Seq<char> {
    "select * from subject;"@
}

/// A row of `subject`.
pub struct SubjectRow {
    pub id: i32,
    pub name: String,
}

/// The texts that the subject table shows for a row: ID, name.
pub open spec fn row_texts(row: SubjectRow) -> Seq<Seq<char>> {
    seq![dec_int(row.id as int), row.name@]
}

/// The cells that the subject table shows for a row.
pub fn data_row(row: &SubjectRow) -> (r: Vec<String>)
    ensures
        r.len() == 2,
        forall|j: int| 0 <= j < 2 ==> #[trigger] r[j]@ == row_texts(*row)[j],
        r[0]@ == dec_int(row.id as int),
        r[1]@ == row.name@,
{
    let mut r: Vec<String> = Vec::new();
    r.push(i64_to_string(row.id as i64));
    r.push(row.name.clone());
    r
}

/// What the change dialog of the subject table is opened with.
pub struct SubjectEdit {
    pub id: i64,
    pub name: String,
}

pub open spec fn full_table_accepts(event: &TableEvent, rows: Seq<Vec<String>>) -> bool {
    match event {
        TableEvent::ChangeRow(i) => *i < 0 || (row_has_cells(rows, *i, 2)
            && parse_i64_spec(rows[*i as int][0]@) is Some),
        _ => true,
    }
}

/// The subject table window.
pub fn show_full_table(event: &TableEvent, rows: &Vec<Vec<String>>) -> (r: TableAction<SubjectEdit>)
    requires
        full_table_accepts(event, rows@),
    ensures
        event is Opened ==> r is Show && r->Show_title@ == title() && r->Show_query@ == list_sql()
            && r->Show_columns.len() == 2 && r->Show_columns[0]@ == "ID"@ && r->Show_columns[1]@ == "Шифр"@,
        event is Refresh ==> r is Load && r->Load_0@ == list_sql(),
        event is ExportToExcel ==> r is Export,
        event is AddNew ==> r is OpenAddDialog,
        event is ChangeRow ==> if event->ChangeRow_0 < 0 {
            r is ShowError && r->ShowError_0@ == "Выберите строку"@
        } else {
            let cells = rows[event->ChangeRow_0 as int];
            r is OpenChangeDialog && r->OpenChangeDialog_0.id == parse_i64_spec(cells[0]@)->0
                && r->OpenChangeDialog_0.name@ == cells[1]@
        },
{
    match event {
        TableEvent::Opened => TableAction::Show {
            title: String::from_str("Предметы"),
            columns: get_colums(),
            query: list_query(),
        },
        TableEvent::Refresh => TableAction::Load(list_query()),
        TableEvent::ExportToExcel => TableAction::Export,
        TableEvent::AddNew => TableAction::OpenAddDialog,
        TableEvent::ChangeRow(i) => {
            if *i < 0 {
                return TableAction::ShowError(String::from_str("Выберите строку"));
            }
            let row = &rows[*i as usize];
            let id = parse_i64(row[0].as_str()).unwrap();
            TableAction::OpenChangeDialog(SubjectEdit { id, name: row[1].clone() })
        },
    }
}

/// The query that adds a subject.
pub open spec fn add_subject_sql(name: Seq<char>) -> Seq<char> {
    "select add_subject('"@ + name + "');"@
}

pub fn add_subject_query(name: &str) -> (r: String)
    ensures
        r@ == add_subject_sql(name@),
{
    let mut q = String::new();
    q.append("select add_subject('");
    q.append(name);
    q.append("');");
    assert(q@ =~= add_subject_sql(name@));
    q
}

/// The query that renames a subject.
pub open spec fn update_subject_sql(id: int, name: Seq<char>) -> Seq<char> {
    "select update_subject("@ + dec_int(id) + ", '"@ + name + "');"@
}

pub fn update_subject_query(id: i64, name: &str) -> (r: String)
    ensures
        r@ == update_subject_sql(id as int, name@),
{
    let mut q = String::new();
    q.append("select update_subject(");
    push_int(&mut q, id);
    q.append(", '");
    q.append(name);
    q.append("');");
    assert(q@ =~= update_subject_sql(id as int, name@));
    q
}

/// The query that deletes a subject.
pub open spec fn delete_subject_sql(id: int) -> Seq<char> {
    "select delete_subject("@ + dec_int(id) + ");"@
}

pub fn delete_subject_query(id: i64) -> (r: String)
    ensures
        r@ == delete_subject_sql(id as int),
{
    let mut q = String::new();
    q.append("select delete_subject(");
    push_int(&mut q, id);
    q.append(");");
    assert(q@ =~= delete_subject_sql(id as int));
    q
}


/// Builds the query for the rows of the table.
pub fn list_query() -> (r: String)
    ensures
        r@ == list_sql(),
{
    String::from_str("select * from subject;")
}

} // verus!
