//! Login accounts of students.
use vstd::prelude::*;
use crate::authorization::{get_hashed_password, hashed_password_text};
use crate::tables::{TableEvent, TableAction, titles, row_has_cells};
use crate::text::{dec_int, push_int, i64_to_string};

verus! {

pub open spec fn title() -> Seq<char> {
    "Логины студентов"@
}

/// The column titles of the student account table.
pub fn get_colums() -> (r: Vec<String>)
    ensures
        r.len() == 2,
        r[0]@ == "Логин"@,
        r[1]@ == "ID"@,
{
    titles(&["Логин", "ID"])
}

pub open spec fn list_sql() -> Seq<char> {
    "select * from \"login_student\";"@
}

/// A row of `login_student`: login and student record id.
pub struct StudentLoginRow {
    pub login: String,
    pub id: i64,
}

/// The cells that the student account table shows for a row.
pub fn data_row(row: &StudentLoginRow) -> (r: Vec<String>)
    ensures
        r.len() == 2,
        r[0]@ == row.login@,
        r[1]@ == dec_int(row.id as int),
{
    let mut r: Vec<String> = Vec::new();
    r.push(row.login.clone());
    r.push(i64_to_string(row.id));
    r
}

pub open spec fn full_table_accepts(event: &TableEvent, rows: Seq<Vec<String>>) -> bool {
    match event {
        TableEvent::ChangeRow(i) => *i < 0 || row_has_cells(rows, *i, 1),
        _ => true,
    }
}

/// The student account table window: accounts are not exported, and a
/// selected row opens the change dialog with its login.
pub fn show_full_table(event: &TableEvent, rows: &Vec<Vec<String>>) -> (r: TableAction<String>)
    requires
        full_table_accepts(event, rows@),
    ensures
        event is Opened ==> r is Show && r->Show_title@ == title() && r->Show_query@ == list_sql()
            && r->Show_columns.len() == 2 && r->Show_columns[0]@ == "Логин"@ && r->Show_columns[1]@ == "ID"@,
        event is Refresh ==> r is Load && r->Load_0@ == list_sql(),
        event is ExportToExcel ==> r is ShowError && r->ShowError_0@ == "Невозможно экспортировать в xlsx"@,
        event is AddNew ==> r is OpenAddDialog,
        event is ChangeRow ==> if event->ChangeRow_0 < 0 {
            r is ShowError && r->ShowError_0@ == "Выберите строку"@
        } else {
            r is OpenChangeDialog && r->OpenChangeDialog_0@ == rows[event->ChangeRow_0 as int][0]@
        },
{
    match event {
        TableEvent::Opened => TableAction::Show {
            title: String::from_str("Логины студентов"),
            columns: get_colums(),
            query: list_query(),
        },
        TableEvent::Refresh => TableAction::Load(list_query()),
        TableEvent::ExportToExcel => TableAction::ShowError(String::from_str("Невозможно экспортировать в xlsx")),
        TableEvent::AddNew => TableAction::OpenAddDialog,
        TableEvent::ChangeRow(i) => {
            if *i < 0 {
                return TableAction::ShowError(String::from_str("Выберите строку"));
            }
            TableAction::OpenChangeDialog(rows[*i as usize][0].clone())
        },
    }
}

/// The query that creates a student's login with the hashed password.
pub open spec fn create_login_sql(login: Seq<char>, password: Seq<char>, id: int) -> Seq<char> {
    "select create_student_login('"@ + login + "', '"@ + hashed_password_text(password) + "', "@
        + dec_int(id) + ");"@
}

pub fn create_login_query(login: &str, password: &str, id: i32) -> (r: String)
    ensures
        r@ == create_login_sql(login@, password@, id as int),
{
    let hashed = get_hashed_password(password);
    let mut q = String::new();
    q.append("select create_student_login('");
    q.append(login);
    q.append("', '");
    q.append(hashed.as_str());
    q.append("', ");
    push_int(&mut q, id as i64);
    q.append(");");
    assert(q@ =~= create_login_sql(login@, password@, id as int));
    q
}

/// The query that deletes a student's login.
pub open spec fn delete_login_sql(login: Seq<char>) -> Seq<char> {
    "select delete_student_login('"@ + login + "');"@
}

pub fn delete_login_query(login: &str) -> (r: String)
    ensures
        r@ == delete_login_sql(login@),
{
    let mut q = String::new();
    q.append("select delete_student_login('");
    q.append(login);
    q.append("');");
    assert(q@ =~= delete_login_sql(login@));
    q
}


/// Builds the query for the rows of the table.
pub fn list_query() -> (r: String)
    ensures
        r@ == list_sql(),
{
    String::from_str("select * from \"login_student\";")
}

} // verus!
