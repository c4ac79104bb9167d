//! Login accounts of teachers.
use vstd::prelude::*;
use crate::authorization::{get_hashed_password, hashed_password_text};
use crate::tables::{TableEvent, TableAction, titles, row_has_cells};

verus! {

pub open spec fn title() -> Seq<char> {
    "Логины преподавателей"@
}

/// The column titles of the teacher account table.
pub fn get_colums() -> (r: Vec<String>)
    ensures
        r.len() == 1,
        r[0]@ == "Логин"@,
{
    titles(&["Логин"])
}

pub open spec fn list_sql() -> Seq<char> {
    "select login from \"users\" where id_role = 4;"@
}

/// The cells that the teacher account table shows for a login.
pub fn data_row(login: &str) -> (r: Vec<String>)
    ensures
        r.len() == 1,
        r[0]@ == login@,
{
    let mut r: Vec<String> = Vec::new();
    r.push(login.to_owned());
    r
}

pub open spec fn full_table_accepts(event: &TableEvent, rows: Seq<Vec<String>>) -> bool {
    match event {
        TableEvent::ChangeRow(i) => *i < 0 || row_has_cells(rows, *i, 1),
        _ => true,
    }
}

/// The teacher account table window: accounts are not exported, and a
/// selected row opens the change dialog with its login.
pub fn show_full_table(event: &TableEvent, rows: &Vec<Vec<String>>) -> (r: TableAction<String>)
    requires
        full_table_accepts(event, rows@),
    ensures
        event is Opened ==> r is Show && r->Show_title@ == title() && r->Show_query@ == list_sql()
            && r->Show_columns.len() == 1 && r->Show_columns[0]@ == "Логин"@,
        event is Refresh ==> r is Load && r->Load_0@ == list_sql(),
        event is ExportToExcel ==> r is ShowError && r->ShowError_0@ == "Невозможно экспортировать в xlsx"@,
        event is AddNew ==> r is OpenAddDialog,
        event is ChangeRow ==> if event->ChangeRow_0 < 0 {
            r is ShowError && r->ShowError_0@ == "Выберите строку"@
        } else {
            r is OpenChangeDialog && r->OpenChangeDialog_0@ == rows[event->ChangeRow_0 as int][0]@
        },
{
    match event {
        TableEvent::Opened => TableAction::Show {
            title: String::from_str("Логины преподавателей"),
            columns: get_colums(),
            query: list_query(),
        },
        TableEvent::Refresh => TableAction::Load(list_query()),
        TableEvent::ExportToExcel => TableAction::ShowError(String::from_str("Невозможно экспортировать в xlsx")),
        TableEvent::AddNew => TableAction::OpenAddDialog,
        TableEvent::ChangeRow(i) => {
            if *i < 0 {
                return TableAction::ShowError(String::from_str("Выберите строку"));
            }
            TableAction::OpenChangeDialog(rows[*i as usize][0].clone())
        },
    }
}

/// The query that creates a teacher's login with the hashed password.
pub open spec fn create_login_sql(login: Seq<char>, password: Seq<char>) -> Seq<char> {
    "select create_teacher_login('"@ + login + "', '"@ + hashed_password_text(password) + "');"@
}

pub fn create_login_query(login: &str, password: &str) -> (r: String)
    ensures
        r@ == create_login_sql(login@, password@),
{
    let hashed = get_hashed_password(password);
    let mut q = String::new();
    q.append("select create_teacher_login('");
    q.append(login);
    q.append("', '");
    q.append(hashed.as_str());
    q.append("');");
    assert(q@ =~= create_login_sql(login@, password@));
    q
}

/// The query that deletes a teacher's login.
pub open spec fn delete_login_sql(login: Seq<char>) -> Seq<char> {
    "select delete_teacher_login('"@ + login + "');"@
}

pub fn delete_login_query(login: &str) -> (r: String)
    ensures
        r@ == delete_login_sql(login@),
{
    let mut q = String::new();
    q.append("select delete_teacher_login('");
    q.append(login);
    q.append("');");
    assert(q@ =~= delete_login_sql(login@));
    q
}


/// Builds the query for the rows of the table.
pub fn list_query() -> (r: String)
    ensures
        r@ == list_sql(),
{
    String::from_str("select login from \"users\" where id_role = 4;")
}

} // verus!
