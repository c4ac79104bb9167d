//! Specializations: cipher and full name.
use vstd::prelude::*;
use crate::tables::{TableEvent, TableAction, titles, row_has_cells};
use crate::text::{dec_int, push_int, i64_to_string, parse_i64, parse_i64_spec};

verus! {

pub open spec fn title() -> Seq<char> {
    "Специализация"@
}

/// The column titles of the specialization table, in order.
pub open spec fn column_titles() -> Seq<Seq<char>> {
    seq!["ID"@, "Шифр"@, "Полное название"@]
}

/// The column titles of the specialization table.
pub fn get_colums() -> (r: Vec<String>)
    ensures
        r.len() == 3,
        forall|j: int| 0 <= j < 3 ==> #[trigger] r[j]@ == column_titles()[j],
        r[0]@ == "ID"@,
        r[1]@ == "Шифр"@,
        r[2]@ == "Полное название"@,
{
    titles(&["ID", "Шифр", "Полное название"])
}

pub open spec fn list_sql() -> Seq<char> {
    "select * from \"specialization\";"@
}

/// A row of `specialization`.
pub struct SpecializationRow {
    pub id: i32,
    pub cifr: String,
    pub full_name: String,
}

/// The texts that the specialization table shows for a row: ID, cipher,
/// full name.
pub open spec fn row_texts(row: SpecializationRow) -> Seq<Seq<char>> {
    seq![dec_int(row.id as int), row.cifr@, row.full_name@]
}

/// The cells that the specialization table shows for a row.
pub fn data_row(row: &SpecializationRow) -> (r: Vec<String>)
    ensures
        r.len() == 3,
        forall|j: int| 0 <= j < 3 ==> #[trigger] r[j]@ == row_texts(*row)[j],
        r[0]@ == dec_int(row.id as int),
        r[1]@ == row.cifr@,
        r[2]@ == row.full_name@,
{
    let mut r: Vec<String> = Vec::new();
    r.push(i64_to_string(row.id as i64));
    r.push(row.cifr.clone());
    r.push(row.full_name.clone());
    r
}

/// What the change dialog of the specialization table is opened with.
pub struct SpecializationEdit {
    pub id: i64,
    pub cifr: String,
    pub name: String,
}

/// The inputs on which the specialization table does not fail: this table
/// does not check for a missing selection, so a change needs a selected row
/// whose first cell reads as `i64`.
pub open spec fn full_table_accepts(event: &TableEvent, rows: Seq<Vec<String>>) -> bool {
    match event {
        TableEvent::ChangeRow(i) => row_has_cells(rows, *i, 3) && parse_i64_spec(rows[*i as int][0]@) is Some,
        _ => true,
    }
}

/// The specialization table window.
pub fn show_full_table(event: &TableEvent, rows: &Vec<Vec<String>>) -> (r: TableAction<SpecializationEdit>)
    requires
        full_table_accepts(event, rows@),
    ensures
        event is Opened ==> r is Show && r->Show_title@ == title() && r->Show_query@ == list_sql()
            && r->Show_columns.len() == 3 && r->Show_columns[0]@ == "ID"@
            && r->Show_columns[1]@ == "Шифр"@ && r->Show_columns[2]@ == "Полное название"@,
        event is Refresh ==> r is Load && r->Load_0@ == list_sql(),
        event is ExportToExcel ==> r is Export,
        event is AddNew ==> r is OpenAddDialog,
        event is ChangeRow ==> {
            let cells = rows[event->ChangeRow_0 as int];
            r is OpenChangeDialog && r->OpenChangeDialog_0.id == parse_i64_spec(cells[0]@)->0
                && r->OpenChangeDialog_0.cifr@ == cells[1]@ && r->OpenChangeDialog_0.name@ == cells[2]@
        },
{
    match event {
        TableEvent::Opened => TableAction::Show {
            title: String::from_str("Специализация"),
            columns: get_colums(),
            query: list_query(),
        },
        TableEvent::Refresh => TableAction::Load(list_query()),
        TableEvent::ExportToExcel => TableAction::Export,
        TableEvent::AddNew => TableAction::OpenAddDialog,
        TableEvent::ChangeRow(i) => {
            let row = &rows[*i as usize];
            let id = parse_i64(row[0].as_str()).unwrap();
            TableAction::OpenChangeDialog(SpecializationEdit {
                id,
                cifr: row[1].clone(),
                name: row[2].clone(),
            })
        },
    }
}

/// The query that adds a specialization.
pub open spec fn add_specialization_sql(cifr: Seq<char>, name: Seq<char>) -> Seq<char> {
    "select add_specialization('"@ + cifr + "', '"@ + name + "');"@
}

pub fn add_specialization_query(cifr: &str, name: &str) -> (r: String)
    ensures
        r@ == add_specialization_sql(cifr@, name@),
{
    let mut q = String::new();
    q.append("select add_specialization('");
    q.append(cifr);
    q.append("', '");
    q.append(name);
    q.append("');");
    assert(q@ =~= add_specialization_sql(cifr@, name@));
    q
}

/// The query that changes a specialization.
pub open spec fn update_specialization_sql(id: int, cifr: Seq<char>, name: Seq<char>) -> Seq<char> {
    "select update_specialization("@ + dec_int(id) + ", '"@ + cifr + "', '"@ + name + "');"@
}

pub fn update_specialization_query(id: i64, cifr: &str, name: &str) -> (r: String)
    ensures
        r@ == update_specialization_sql(id as int, cifr@, name@),
{
    let mut q = String::new();
    q.append("select update_specialization(");
    push_int(&mut q, id);
    q.append(", '");
    q.append(cifr);
    q.append("', '");
    q.append(name);
    q.append("');");
    assert(q@ =~= update_specialization_sql(id as int, cifr@, name@));
    q
}

/// The query that deletes a specialization.
pub open spec fn delete_specialization_sql(id: int) -> Seq<char> {
    "select delete_specialization("@ + dec_int(id) + ");"@
}

pub fn delete_specialization_query(id: i64) -> (r: String)
    ensures
        r@ == delete_specialization_sql(id as int),
{
    let mut q = String::new();
    q.append("select delete_specialization(");
    push_int(&mut q, id);
    q.append(");");
    assert(q@ =~= delete_specialization_sql(id as int));
    q
}


/// Builds the query for the rows of the table.
pub fn list_query() -> (r: String)
    ensures
        r@ == list_sql(),
{
    String::from_str("select * from \"specialization\";")
}

} // verus!
