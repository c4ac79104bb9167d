//! A teacher's view of a group for one line of the academic plan, and the
//! marking of students.
use vstd::prelude::*;
use crate::authorization::{three_words, join_three_words};
use crate::tables::{mark_or_missing, mark_text, row_has_cells};
use crate::text::{dec_int, push_int, i64_to_string, parse_i32, parse_i32_spec, str_eq};

verus! {

/// The query for the students of a group with their marks for a plan line.
pub open spec fn students_by_plan_sql(plan_id: int, cifr: Seq<char>, year: int, number: int) -> Seq<char> {
    "select * from get_students_by_plan_in_group("@ + dec_int(plan_id) + ", '"@ + cifr + "', "@
        + dec_int(year) + ", "@ + dec_int(number) + ");"@
}

pub fn students_by_plan_query(plan_id: i32, cifr: &str, year: i32, number: i32) -> (r: String)
    ensures
        r@ == students_by_plan_sql(plan_id as int, cifr@, year as int, number as int),
{
    let mut q = String::new();
    q.append("select * from get_students_by_plan_in_group(");
    push_int(&mut q, plan_id as i64);
    q.append(", '");
    q.append(cifr);
    q.append("', ");
    push_int(&mut q, year as i64);
    q.append(", ");
    push_int(&mut q, number as i64);
    q.append(");");
    assert(q@ =~= students_by_plan_sql(plan_id as int, cifr@, year as int, number as int));
    q
}

/// A row of `get_students_by_plan_in_group`.
pub struct TeacherGroupRow {
    pub id: i64,
    pub first_name: String,
    pub second_name: String,
    pub middle_name: String,
    pub certification: String,
    pub mark: Option<String>,
}

/// The cells shown for a student: id, first, second and middle name, the
/// certification type, and the mark or "Нет оценки".
pub fn data_row(row: &TeacherGroupRow) -> (r: Vec<String>)
    ensures
        r.len() == 4,
        r[0]@ == dec_int(row.id as int),
        r[1]@ == three_words(row.first_name@, row.second_name@, row.middle_name@),
        r[2]@ == row.certification@,
        r[3]@ == mark_or_missing(row.mark),
{
    let mut r: Vec<String> = Vec::new();
    r.push(i64_to_string(row.id));
    r.push(join_three_words(row.first_name.as_str(), row.second_name.as_str(), row.middle_name.as_str()));
    r.push(row.certification.clone());
    r.push(mark_text(&row.mark));
    r
}

/// What happens in the teacher's group window.
pub enum TeacherTableEvent {
    Opened,
    Refresh,
    /// The mark button, with the selected row (negative when none).
    Mark(i32),
}

/// Whom the marking dialog marks, for which plan line, and how.
pub struct MarkTarget {
    pub student_id: i32,
    pub plan_id: i32,
    pub certification: String,
    pub name: String,
}

pub enum TeacherTableAction {
    Load(String),
    OpenMarkDialog(MarkTarget),
    ShowError(String),
}

pub open spec fn full_table_accepts(event: &TeacherTableEvent, rows: Seq<Vec<String>>) -> bool {
    match event {
        TeacherTableEvent::Mark(i) => *i < 0 || (row_has_cells(rows, *i, 3)
            && parse_i32_spec(rows[*i as int][0]@) is Some),
        _ => true,
    }
}

/// The teacher's group window for a plan line: it shows and reloads the
/// group's students; marking without a selected row asks for one, else it
/// opens the marking dialog for the row's student.
pub fn show_full_table(
    plan_id: i32,
    cifr: &str,
    year: i32,
    number: i32,
    event: &TeacherTableEvent,
    rows: &Vec<Vec<String>>,
) -> (r: TeacherTableAction)
    requires
        full_table_accepts(event, rows@),
    ensures
        (event is Opened || event is Refresh) ==> r is Load
            && r->Load_0@ == students_by_plan_sql(plan_id as int, cifr@, year as int, number as int),
        event is Mark ==> if event->Mark_0 < 0 {
            r is ShowError && r->ShowError_0@ == "Выберите строку"@
        } else {
            let cells = rows[event->Mark_0 as int];
            r is OpenMarkDialog && r->OpenMarkDialog_0.student_id == parse_i32_spec(cells[0]@)->0
                && r->OpenMarkDialog_0.plan_id == plan_id
                && r->OpenMarkDialog_0.name@ == cells[1]@
                && r->OpenMarkDialog_0.certification@ == cells[2]@
        },
{
    match event {
        TeacherTableEvent::Mark(i) => {
            if *i < 0 {
                return TeacherTableAction::ShowError(String::from_str("Выберите строку"));
            }
            let row = &rows[*i as usize];
            let student_id = parse_i32(row[0].as_str()).unwrap();
            TeacherTableAction::OpenMarkDialog(MarkTarget {
                student_id,
                plan_id,
                certification: row[2].clone(),
                name: row[1].clone(),
            })
        },
        _ => TeacherTableAction::Load(students_by_plan_query(plan_id, cifr, year, number)),
    }
}

/// The query that records a student's mark for a plan line.
pub open spec fn mark_student_sql(plan_id: int, student_id: int, mark: Seq<char>) -> Seq<char> {
    "select mark_student("@ + dec_int(plan_id) + ", "@ + dec_int(student_id) + ", '"@ + mark + "');"@
}

pub fn mark_student_query(plan_id: i32, student_id: i32, mark: &str) -> (r: String)
    ensures
        r@ == mark_student_sql(plan_id as int, student_id as int, mark@),
{
    let mut q = String::new();
    q.append("select mark_student(");
    push_int(&mut q, plan_id as i64);
    q.append(", ");
    push_int(&mut q, student_id as i64);
    q.append(", '");
    q.append(mark);
    q.append("');");
    assert(q@ =~= mark_student_sql(plan_id as int, student_id as int, mark@));
    q
}

/// The marks a teacher may give: for a pass/fail certification ("Зачет")
/// pass, fail or absence; for any other, absence or one of the four grades.
pub open spec fn offered_marks(c_type: Seq<char>) -> Seq<Seq<char>> {
    if c_type == "Зачет"@ {
        seq!["Зачет"@, "Не зачет"@, "Не явка"@]
    } else {
        seq!["Не явка"@, "Не удовлетворительно"@, "Удовлетворительно"@, "Хорошо"@, "Отлично"@]
    }
}

/// The marks offered in the marking dialog for a certification type.
pub fn get_marks(c_type: &str) -> (r: Vec<String>)
    ensures
        r.len() == offered_marks(c_type@).len(),
        forall|i: int| 0 <= i < r.len() ==> #[trigger] r[i]@ == offered_marks(c_type@)[i],
{
    if str_eq(c_type, "Зачет") {
        let mut r: Vec<String> = Vec::new();
        r.push(String::from_str("Зачет"));
        r.push(String::from_str("Не зачет"));
        r.push(String::from_str("Не явка"));
        r
    } else {
        let mut r: Vec<String> = Vec::new();
        r.push(String::from_str("Не явка"));
        r.push(String::from_str("Не удовлетворительно"));
        r.push(String::from_str("Удовлетворительно"));
        r.push(String::from_str("Хорошо"));
        r.push(String::from_str("Отлично"));
        r
    }
}

/// Whatever the certification type, absence ("Не явка") is one of the
/// marks offered, and the offered marks are distinct.
pub proof fn absence_always_offered(c_type: Seq<char>)
    ensures
        offered_marks(c_type).contains("Не явка"@),
        forall|i: int, j: int| 0 <= i < j < offered_marks(c_type).len() ==> offered_marks(c_type)[i] != offered_marks(c_type)[j],
{
    reveal_strlit("Зачет");
    reveal_strlit("Не зачет");
    reveal_strlit("Не явка");
    reveal_strlit("Не удовлетворительно");
    reveal_strlit("Удовлетворительно");
    reveal_strlit("Хорошо");
    reveal_strlit("Отлично");
    let marks = offered_marks(c_type);
    if c_type == "Зачет"@ {
        assert(marks[2] == "Не явка"@);
        assert("Зачет"@[0] != "Не зачет"@[0]);
        assert("Зачет"@[0] != "Не явка"@[0]);
        assert("Не зачет"@[3] != "Не явка"@[3]);
    } else {
        assert(marks[0] == "Не явка"@);
        assert("Не явка"@.len() != "Не удовлетворительно"@.len());
        assert("Не явка"@[0] != "Удовлетворительно"@[0]);
        assert("Не явка"@[0] != "Хорошо"@[0]);
        assert("Не явка"@[0] != "Отлично"@[0]);
        assert("Не удовлетворительно"@[0] != "Удовлетворительно"@[0]);
        assert("Не удовлетворительно"@[0] != "Хорошо"@[0]);
        assert("Не удовлетворительно"@[0] != "Отлично"@[0]);
        assert("Удовлетворительно"@[0] != "Хорошо"@[0]);
        assert("Удовлетворительно"@[0] != "Отлично"@[0]);
        assert("Хорошо"@[0] != "Отлично"@[0]);
    }
}

} // verus!
