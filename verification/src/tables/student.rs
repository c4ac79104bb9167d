//! Students: names and groups.
use vstd::prelude::*;
use crate::tables::{TableEvent, TableAction, titles, row_has_cells};
use crate::tables::group::{group_from_str, group_from_text, group_name, group_text};
use crate::text::{dec_int, push_int, i64_to_string, parse_i32, parse_i32_spec};

verus! {

pub open spec fn title() -> Seq<char> {
    "Студенты"@
}

/// The column titles of the student table, in order.
pub open spec fn column_titles() -> Seq<Seq<char>> {
    seq!["ID"@, "Имя"@, "Фамилия"@, "Отчетство"@, "Группа"@]
}

/// The column titles of the student table.
pub fn get_colums() -> (r: Vec<String>)
    ensures
        r.len() == 5,
        forall|j: int| 0 <= j < 5 ==> #[trigger] r[j]@ == column_titles()[j],
        r[0]@ == "ID"@,
        r[1]@ == "Имя"@,
        r[2]@ == "Фамилия"@,
        r[3]@ == "Отчетство"@,
        r[4]@ == "Группа"@,
{
    titles(&["ID", "Имя", "Фамилия", "Отчетство", "Группа"])
}

pub open spec fn list_sql() -> Seq<char> {
    "select * from get_students;"@
}

/// A row of `get_students`.
pub struct StudentListRow {
    pub id: i32,
    pub first_name: String,
    pub second_name: String,
    pub middle_name: String,
    pub year: i64,
    pub number: i64,
    pub cifr: String,
}

pub open spec fn row_group_text(row: StudentListRow) -> Seq<char> {
    group_text(row.cifr@, row.year as int, row.number as int)
}

/// The texts that the student table shows for a row: ID, first, second and
/// middle name, group name.
pub open spec fn row_texts(row: StudentListRow) -> Seq<Seq<char>> {
    seq![dec_int(row.id as int), row.first_name@, row.second_name@, row.middle_name@, row_group_text(row)]
}

/// The cells that the student table shows for a row; the group is shown by
/// its name.
pub fn data_row(row: &StudentListRow) -> (r: Vec<String>)
    ensures
        r.len() == 5,
        forall|j: int| 0 <= j < 5 ==> #[trigger] r[j]@ == row_texts(*row)[j],
        r[0]@ == dec_int(row.id as int),
        r[1]@ == row.first_name@,
        r[2]@ == row.second_name@,
        r[3]@ == row.middle_name@,
        r[4]@ == row_group_text(*row),
{
    let mut r: Vec<String> = Vec::new();
    r.push(i64_to_string(row.id as i64));
    r.push(row.first_name.clone());
    r.push(row.second_name.clone());
    r.push(row.middle_name.clone());
    r.push(group_name(row.cifr.as_str(), row.year, row.number));
    r
}

/// What the change dialog of the student table is opened with.
pub struct StudentEdit {
    pub id: i32,
    pub first_name: String,
    pub second_name: String,
    pub middle_name: String,
    pub group: String,
}

pub open spec fn full_table_accepts(event: &TableEvent, rows: Seq<Vec<String>>) -> bool {
    match event {
        TableEvent::ChangeRow(i) => *i < 0 || (row_has_cells(rows, *i, 5)
            && parse_i32_spec(rows[*i as int][0]@) is Some),
        _ => true,
    }
}

/// The student table window.
pub fn show_full_table(event: &TableEvent, rows: &Vec<Vec<String>>) -> (r: TableAction<StudentEdit>)
    requires
        full_table_accepts(event, rows@),
    ensures
        event is Opened ==> r is Show && r->Show_title@ == title() && r->Show_query@ == list_sql()
            && r->Show_columns.len() == 5 && r->Show_columns[0]@ == "ID"@
            && r->Show_columns[1]@ == "Имя"@ && r->Show_columns[2]@ == "Фамилия"@
            && r->Show_columns[3]@ == "Отчетство"@ && r->Show_columns[4]@ == "Группа"@,
        event is Refresh ==> r is Load && r->Load_0@ == list_sql(),
        event is ExportToExcel ==> r is Export,
        event is AddNew ==> r is OpenAddDialog,
        event is ChangeRow ==> if event->ChangeRow_0 < 0 {
            r is ShowError && r->ShowError_0@ == "Выберите строку"@
        } else {
            let cells = rows[event->ChangeRow_0 as int];
            r is OpenChangeDialog && r->OpenChangeDialog_0.id == parse_i32_spec(cells[0]@)->0
                && r->OpenChangeDialog_0.first_name@ == cells[1]@
                && r->OpenChangeDialog_0.second_name@ == cells[2]@
                && r->OpenChangeDialog_0.middle_name@ == cells[3]@
                && r->OpenChangeDialog_0.group@ == cells[4]@
        },
{
    match event {
        TableEvent::Opened => TableAction::Show {
            title: String::from_str("Студенты"),
            columns: get_colums(),
            query: list_query(),
        },
        TableEvent::Refresh => TableAction::Load(list_query()),
        TableEvent::ExportToExcel => TableAction::Export,
        TableEvent::AddNew => TableAction::OpenAddDialog,
        TableEvent::ChangeRow(i) => {
            if *i < 0 {
                return TableAction::ShowError(String::from_str("Выберите строку"));
            }
            let row = &rows[*i as usize];
            let id = parse_i32(row[0].as_str()).unwrap();
            TableAction::OpenChangeDialog(StudentEdit {
                id,
                first_name: row[1].clone(),
                second_name: row[2].clone(),
                middle_name: row[3].clone(),
                group: row[4].clone(),
            })
        },
    }
}

/// The query that adds a student to the group with the given parts.
pub open spec fn add_student_sql(f: Seq<char>, s: Seq<char>, m: Seq<char>, cifr: Seq<char>, year: int, number: int) -> Seq<char> {
    "select add_student('"@ + f + "', '"@ + s + "', '"@ + m + "', '"@ + cifr + "', "@ + dec_int(year) + ", "@
        + dec_int(number) + ");"@
}

/// The query that adds a student to the group named `group`, or `None`
/// (reported as a data error) when the group name is malformed.
pub fn add_student_query(f: &str, s: &str, m: &str, group: &str) -> (r: Option<String>)
    ensures
        match group_from_text(group@) {
            Some((cifr, year, number)) => r is Some && r->0@ == add_student_sql(f@, s@, m@, cifr, year, number),
            None => r is None,
        },
{
    match group_from_str(group) {
        Some((cifr, year, number)) => {
            let mut q = String::new();
            q.append("select add_student('");
            q.append(f);
            q.append("', '");
            q.append(s);
            q.append("', '");
            q.append(m);
            q.append("', '");
            q.append(cifr);
            q.append("', ");
            push_int(&mut q, year as i64);
            q.append(", ");
            push_int(&mut q, number as i64);
            q.append(");");
            assert(q@ =~= add_student_sql(f@, s@, m@, cifr@, year as int, number as int));
            Some(q)
        },
        None => None,
    }
}

/// The query that changes a student.
pub open spec fn update_student_sql(id: int, f: Seq<char>, s: Seq<char>, m: Seq<char>, cifr: Seq<char>, year: int, number: int) -> Seq<char> {
    "select update_student("@ + dec_int(id) + ", '"@ + f + "', '"@ + s + "', '"@ + m + "', '"@ + cifr + "', "@
        + dec_int(year) + ", "@ + dec_int(number) + ");"@
}

/// The query that changes a student, or `None` (reported as a data error)
/// when the group name is malformed.
pub fn update_student_query(id: i32, f: &str, s: &str, m: &str, group: &str) -> (r: Option<String>)
    ensures
        match group_from_text(group@) {
            Some((cifr, year, number)) => r is Some && r->0@ == update_student_sql(id as int, f@, s@, m@, cifr, year, number),
            None => r is None,
        },
{
    match group_from_str(group) {
        Some((cifr, year, number)) => {
            let mut q = String::new();
            q.append("select update_student(");
            push_int(&mut q, id as i64);
            q.append(", '");
            q.append(f);
            q.append("', '");
            q.append(s);
            q.append("', '");
            q.append(m);
            q.append("', '");
            q.append(cifr);
            q.append("', ");
            push_int(&mut q, year as i64);
            q.append(", ");
            push_int(&mut q, number as i64);
            q.append(");");
            assert(q@ =~= update_student_sql(id as int, f@, s@, m@, cifr@, year as int, number as int));
            Some(q)
        },
        None => None,
    }
}

/// The query that deletes a student.
pub open spec fn delete_student_sql(id: int) -> Seq<char> {
    "select delete_student("@ + dec_int(id) + ");"@
}

pub fn delete_student_query(id: i32) -> (r: String)
    ensures
        r@ == delete_student_sql(id as int),
{
    let mut q = String::new();
    q.append("select delete_student(");
    push_int(&mut q, id as i64);
    q.append(");");
    assert(q@ =~= delete_student_sql(id as int));
    q
}


/// Builds the query for the rows of the table.
pub fn list_query() -> (r: String)
    ensures
        r@ == list_sql(),
{
    String::from_str("select * from get_students;")
}

/// The query for the group names offered in the student dialogs.
pub open spec fn group_names_sql() -> Seq<char> {
    "select name from get_group;"@
}

pub fn group_names_query() -> (r: String)
    ensures
        r@ == group_names_sql(),
{
    String::from_str("select name from get_group;")
}

} // verus!
