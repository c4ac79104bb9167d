//! Student cards: the marks of a group (for the administrator) and of one
//! student (for the student).
use vstd::prelude::*;
use crate::authorization::Student;
use crate::tables::{mark_or_missing, mark_text};
use crate::tables::group::{group_from_str, group_from_text, StudentTableEvent, StudentTableAction};
use crate::text::{dec_int, push_int, i64_to_string};

verus! {

/// The query for the names of all groups.
pub open spec fn group_list_sql() -> Seq<char> {
    "select name from get_group;"@
}

/// What happens in the window where the administrator picks a group.
pub enum ChooseGroupEvent {
    Opened,
    /// A group name was chosen.
    Chosen(String),
}

pub enum ChooseGroupAction {
    /// List the group names that the query gives.
    LoadGroups(String),
    /// Open the marks of the group with these parts.
    OpenMarks { cifr: String, year: i32, number: i32 },
    /// A malformed group name: nothing happens.
    Ignore,
}

/// The group picker: it lists all groups, and a chosen name opens that
/// group's marks when it reads as a group name.
pub fn show_choose_group(event: &ChooseGroupEvent) -> (r: ChooseGroupAction)
    ensures
        event is Opened ==> r is LoadGroups && r->LoadGroups_0@ == group_list_sql(),
        event is Chosen ==> match group_from_text(event->Chosen_0@) {
            Some((cifr, year, number)) => r is OpenMarks && r->OpenMarks_cifr@ == cifr
                && r->OpenMarks_year == year && r->OpenMarks_number == number,
            None => r is Ignore,
        },
{
    match event {
        ChooseGroupEvent::Opened => ChooseGroupAction::LoadGroups(String::from_str("select name from get_group;")),
        ChooseGroupEvent::Chosen(group) => match group_from_str(group.as_str()) {
            Some((cifr, year, number)) => ChooseGroupAction::OpenMarks { cifr: cifr.to_owned(), year, number },
            None => ChooseGroupAction::Ignore,
        },
    }
}

/// The query for the student card of a group.
pub open spec fn student_card_sql(cifr: Seq<char>, year: int, number: int) -> Seq<char> {
    "select * from get_student_card_for('"@ + cifr + "', "@ + dec_int(year) + ", "@ + dec_int(number) + ")"@
}

pub fn student_card_query(cifr: &str, year: i32, number: i32) -> (r: String)
    ensures
        r@ == student_card_sql(cifr@, year as int, number as int),
{
    let mut q = String::new();
    q.append("select * from get_student_card_for('");
    q.append(cifr);
    q.append("', ");
    push_int(&mut q, year as i64);
    q.append(", ");
    push_int(&mut q, number as i64);
    q.append(")");
    assert(q@ =~= student_card_sql(cifr@, year as int, number as int));
    q
}

/// A row of `get_student_card_for`.
pub struct StudentCardRow {
    pub id: i32,
    pub first_name: String,
    pub second_name: String,
    pub subject: String,
    pub semester: i64,
    pub certification: String,
    pub mark: Option<String>,
}

/// The texts shown for a row of a group's student card: ID, first and
/// second name, subject, semester, certification type, mark.
pub open spec fn card_row_texts(row: StudentCardRow) -> Seq<Seq<char>> {
    seq![dec_int(row.id as int), row.first_name@, row.second_name@, row.subject@,
        dec_int(row.semester as int), row.certification@, mark_or_missing(row.mark)]
}

/// The cells shown for a row of a group's student card.
pub fn card_row(row: &StudentCardRow) -> (r: Vec<String>)
    ensures
        r.len() == 7,
        forall|j: int| 0 <= j < 7 ==> #[trigger] r[j]@ == card_row_texts(*row)[j],
        r[0]@ == dec_int(row.id as int),
        r[1]@ == row.first_name@,
        r[2]@ == row.second_name@,
        r[3]@ == row.subject@,
        r[4]@ == dec_int(row.semester as int),
        r[5]@ == row.certification@,
        r[6]@ == mark_or_missing(row.mark),
{
    let mut r: Vec<String> = Vec::new();
    r.push(i64_to_string(row.id as i64));
    r.push(row.first_name.clone());
    r.push(row.second_name.clone());
    r.push(row.subject.clone());
    r.push(i64_to_string(row.semester));
    r.push(row.certification.clone());
    r.push(mark_text(&row.mark));
    r
}

/// The administrator's window with a group's marks: it shows and reloads
/// the group's student card, and exports it.
pub fn show_admin_marks(cifr: &str, year: i32, number: i32, event: StudentTableEvent) -> (r: StudentTableAction)
    ensures
        (event is Opened || event is Refresh) ==> r is Load
            && r->Load_0@ == student_card_sql(cifr@, year as int, number as int),
        event is ExportToExcel ==> r is Export,
{
    match event {
        StudentTableEvent::ExportToExcel => StudentTableAction::Export,
        _ => StudentTableAction::Load(student_card_query(cifr, year, number)),
    }
}

/// The query for a student's marks, by semester.
pub open spec fn student_marks_sql(number: int) -> Seq<char> {
    "SELECT * FROM get_marks_student("@ + dec_int(number) + ") order by semester;"@
}

pub fn student_marks_query(number: i32) -> (r: String)
    ensures
        r@ == student_marks_sql(number as int),
{
    let mut q = String::new();
    q.append("SELECT * FROM get_marks_student(");
    push_int(&mut q, number as i64);
    q.append(") order by semester;");
    assert(q@ =~= student_marks_sql(number as int));
    q
}

/// A row of `get_marks_student`.
pub struct StudentMarkRow {
    pub subject: String,
    pub semester: i64,
    pub hours: i64,
    pub certification: String,
    pub mark: Option<String>,
}

/// The texts shown for a row of a student's marks: subject, semester,
/// hours, certification type, mark.
pub open spec fn mark_row_texts(row: StudentMarkRow) -> Seq<Seq<char>> {
    seq![row.subject@, dec_int(row.semester as int), dec_int(row.hours as int), row.certification@,
        mark_or_missing(row.mark)]
}

/// The cells shown for a row of a student's marks.
pub fn mark_row(row: &StudentMarkRow) -> (r: Vec<String>)
    ensures
        r.len() == 5,
        forall|j: int| 0 <= j < 5 ==> #[trigger] r[j]@ == mark_row_texts(*row)[j],
        r[0]@ == row.subject@,
        r[1]@ == dec_int(row.semester as int),
        r[2]@ == dec_int(row.hours as int),
        r[3]@ == row.certification@,
        r[4]@ == mark_or_missing(row.mark),
{
    let mut r: Vec<String> = Vec::new();
    r.push(row.subject.clone());
    r.push(i64_to_string(row.semester));
    r.push(i64_to_string(row.hours));
    r.push(row.certification.clone());
    r.push(mark_text(&row.mark));
    r
}

/// The student's window with their own marks: it shows and reloads them,
/// and exports them.
pub fn show_marks_for_student(student: &Student, event: StudentTableEvent) -> (r: StudentTableAction)
    ensures
        (event is Opened || event is Refresh) ==> r is Load
            && r->Load_0@ == student_marks_sql(student.number as int),
        event is ExportToExcel ==> r is Export,
{
    match event {
        StudentTableEvent::ExportToExcel => StudentTableAction::Export,
        _ => StudentTableAction::Load(student_marks_query(student.number)),
    }
}

} // verus!
