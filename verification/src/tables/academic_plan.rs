//! The academic plan: which subject a specialization studies in which
//! semester, for how many hours and with which certification.
use vstd::prelude::*;
use crate::authorization::Student;
use crate::tables::{TableEvent, TableAction, titles, row_has_cells};
use crate::text::{dec_int, push_int, i64_to_string, parse_i32, parse_i32_spec};

verus! {

pub open spec fn title() -> Seq<char> {
    "Учебный план"@
}

/// The column titles of the academic plan table, in order.
pub open spec fn column_titles() -> Seq<Seq<char>> {
    seq!["ID"@, "Название специальности"@, "Название предмета"@, "Вид аттестации"@, "Количество часов"@, "Семестр"@]
}

/// The column titles of the academic plan table.
pub fn get_colums() -> (r: Vec<String>)
    ensures
        r.len() == 6,
        forall|j: int| 0 <= j < 6 ==> #[trigger] r[j]@ == column_titles()[j],
        r[0]@ == "ID"@,
        r[1]@ == "Название специальности"@,
        r[2]@ == "Название предмета"@,
        r[3]@ == "Вид аттестации"@,
        r[4]@ == "Количество часов"@,
        r[5]@ == "Семестр"@,
{
    titles(&["ID", "Название специальности", "Название предмета", "Вид аттестации", "Количество часов", "Семестр"])
}

pub open spec fn list_sql() -> Seq<char> {
    "select * from get_academic_plan;"@
}

/// A row of `get_academic_plan`.
pub struct AcademicPlanRow {
    pub id: i32,
    pub specialization: String,
    pub subject: String,
    pub certification: String,
    pub hours: i64,
    pub semester: i64,
}

/// The texts that the academic plan table shows for a row: ID,
/// specialization, subject, certification type, hours, semester.
pub open spec fn row_texts(row: AcademicPlanRow) -> Seq<Seq<char>> {
    seq![dec_int(row.id as int), row.specialization@, row.subject@, row.certification@,
        dec_int(row.hours as int), dec_int(row.semester as int)]
}

/// The cells that the academic plan table shows for a row.
pub fn data_row(row: &AcademicPlanRow) -> (r: Vec<String>)
    ensures
        r.len() == 6,
        forall|j: int| 0 <= j < 6 ==> #[trigger] r[j]@ == row_texts(*row)[j],
        r[0]@ == dec_int(row.id as int),
        r[1]@ == row.specialization@,
        r[2]@ == row.subject@,
        r[3]@ == row.certification@,
        r[4]@ == dec_int(row.hours as int),
        r[5]@ == dec_int(row.semester as int),
{
    let mut r: Vec<String> = Vec::new();
    r.push(i64_to_string(row.id as i64));
    r.push(row.specialization.clone());
    r.push(row.subject.clone());
    r.push(row.certification.clone());
    r.push(i64_to_string(row.hours));
    r.push(i64_to_string(row.semester));
    r
}

/// What the change dialog of the academic plan table is opened with.
pub struct PlanEdit {
    pub id: i32,
    pub specialization: String,
    pub subject: String,
    pub certification: String,
    pub hours: i32,
    pub semester: i32,
}

/// The inputs on which the academic plan table does not fail: a selected
/// row's id, hours and semester cells read as `i32`.
pub open spec fn full_table_accepts(event: &TableEvent, rows: Seq<Vec<String>>) -> bool {
    match event {
        TableEvent::ChangeRow(i) => *i < 0 || (row_has_cells(rows, *i, 6)
            && parse_i32_spec(rows[*i as int][0]@) is Some
            && parse_i32_spec(rows[*i as int][4]@) is Some
            && parse_i32_spec(rows[*i as int][5]@) is Some),
        _ => true,
    }
}

/// The academic plan table window.
pub fn show_full_table(event: &TableEvent, rows: &Vec<Vec<String>>) -> (r: TableAction<PlanEdit>)
    requires
        full_table_accepts(event, rows@),
    ensures
        event is Opened ==> r is Show && r->Show_title@ == title() && r->Show_query@ == list_sql()
            && r->Show_columns.len() == 6 && r->Show_columns[0]@ == "ID"@
            && r->Show_columns[1]@ == "Название специальности"@
            && r->Show_columns[2]@ == "Название предмета"@
            && r->Show_columns[3]@ == "Вид аттестации"@
            && r->Show_columns[4]@ == "Количество часов"@
            && r->Show_columns[5]@ == "Семестр"@,
        event is Refresh ==> r is Load && r->Load_0@ == list_sql(),
        event is ExportToExcel ==> r is Export,
        event is AddNew ==> r is OpenAddDialog,
        event is ChangeRow ==> {
            let i = event->ChangeRow_0;
            if i < 0 {
                r is ShowError && r->ShowError_0@ == "Выберите строку"@
            } else {
                let cells = rows[i as int];
                r is OpenChangeDialog
                    && r->OpenChangeDialog_0.id == parse_i32_spec(cells[0]@)->0
                    && r->OpenChangeDialog_0.specialization@ == cells[1]@
                    && r->OpenChangeDialog_0.subject@ == cells[2]@
                    && r->OpenChangeDialog_0.certification@ == cells[3]@
                    && r->OpenChangeDialog_0.hours == parse_i32_spec(cells[4]@)->0
                    && r->OpenChangeDialog_0.semester == parse_i32_spec(cells[5]@)->0
            }
        },
{
    match event {
        TableEvent::Opened => TableAction::Show {
            title: String::from_str("Учебный план"),
            columns: get_colums(),
            query: list_query(),
        },
        TableEvent::Refresh => TableAction::Load(list_query()),
        TableEvent::ExportToExcel => TableAction::Export,
        TableEvent::AddNew => TableAction::OpenAddDialog,
        TableEvent::ChangeRow(i) => {
            if *i < 0 {
                return TableAction::ShowError(String::from_str("Выберите строку"));
            }
            let row = &rows[*i as usize];
            let id = parse_i32(row[0].as_str()).unwrap();
            let hours = parse_i32(row[4].as_str()).unwrap();
            let semester = parse_i32(row[5].as_str()).unwrap();
            TableAction::OpenChangeDialog(PlanEdit {
                id,
                specialization: row[1].clone(),
                subject: row[2].clone(),
                certification: row[3].clone(),
                hours,
                semester,
            })
        },
    }
}

/// The query that adds a line to the academic plan.
pub open spec fn add_plan_sql(spec: Seq<char>, sub: Seq<char>, c: Seq<char>, h: int, s: int) -> Seq<char> {
    "select add_academic_plan('"@ + spec + "', '"@ + sub + "', '"@ + c + "', "@ + dec_int(h) + ", "@
        + dec_int(s) + ");"@
}

pub fn add_plan_query(spec: &str, sub: &str, c: &str, h: i32, s: i32) -> (r: String)
    ensures
        r@ == add_plan_sql(spec@, sub@, c@, h as int, s as int),
{
    let mut q = String::new();
    q.append("select add_academic_plan('");
    q.append(spec);
    q.append("', '");
    q.append(sub);
    q.append("', '");
    q.append(c);
    q.append("', ");
    push_int(&mut q, h as i64);
    q.append(", ");
    push_int(&mut q, s as i64);
    q.append(");");
    assert(q@ =~= add_plan_sql(spec@, sub@, c@, h as int, s as int));
    q
}

/// The query that changes a line of the academic plan.
pub open spec fn update_plan_sql(id: int, spec: Seq<char>, sub: Seq<char>, c: Seq<char>, h: int, s: int) -> Seq<char> {
    "select update_academic_plan("@ + dec_int(id) + ", '"@ + spec + "', '"@ + sub + "', '"@ + c + "', "@
        + dec_int(h) + ", "@ + dec_int(s) + ");"@
}

pub fn update_plan_query(id: i32, spec: &str, sub: &str, c: &str, h: i32, s: i32) -> (r: String)
    ensures
        r@ == update_plan_sql(id as int, spec@, sub@, c@, h as int, s as int),
{
    let mut q = String::new();
    q.append("select update_academic_plan(");
    push_int(&mut q, id as i64);
    q.append(", '");
    q.append(spec);
    q.append("', '");
    q.append(sub);
    q.append("', '");
    q.append(c);
    q.append("', ");
    push_int(&mut q, h as i64);
    q.append(", ");
    push_int(&mut q, s as i64);
    q.append(");");
    assert(q@ =~= update_plan_sql(id as int, spec@, sub@, c@, h as int, s as int));
    q
}

/// The query that deletes a line of the academic plan.
pub open spec fn delete_plan_sql(id: int) -> Seq<char> {
    "select delete_academic_plan("@ + dec_int(id) + ");"@
}

pub fn delete_plan_query(id: i32) -> (r: String)
    ensures
        r@ == delete_plan_sql(id as int),
{
    let mut q = String::new();
    q.append("select delete_academic_plan(");
    push_int(&mut q, id as i64);
    q.append(");");
    assert(q@ =~= delete_plan_sql(id as int));
    q
}

/// The query for a student's plan in a course: the course's two semesters
/// `course << 1` and `(course << 1) - 1`, by semester.
pub open spec fn student_plan_sql(number: int, course: i32) -> Seq<char> {
    "select * from get_student_plan("@ + dec_int(number) + ") where semester = "@
        + dec_int((course << 1) as int) + " or semester = "@ + dec_int((course << 1) - 1) + " order by semester;"@
}

/// The courses whose semesters can be computed without overflow.
pub open spec fn course_in_range(course: i32) -> bool {
    (course << 1) > i32::MIN
}

pub fn student_plan_query(number: i32, course: i32) -> (r: String)
    requires
        course_in_range(course),
    ensures
        r@ == student_plan_sql(number as int, course),
{
    let doubled: i32 = course << 1;
    let mut q = String::new();
    q.append("select * from get_student_plan(");
    push_int(&mut q, number as i64);
    q.append(") where semester = ");
    push_int(&mut q, doubled as i64);
    q.append(" or semester = ");
    push_int(&mut q, (doubled - 1) as i64);
    q.append(" order by semester;");
    assert(q@ =~= student_plan_sql(number as int, course));
    q
}

/// For the courses a student has (1 up to 2^30 - 1), the two semesters of the
/// plan query are `2 * course` and `2 * course - 1`.
pub proof fn course_semesters(course: i32)
    requires
        1 <= course <= 0x3FFF_FFFF,
    ensures
        course_in_range(course),
        (course << 1) as int == 2 * course,
        (course << 1) - 1 == 2 * course - 1,
{
    assert(1 <= course <= 0x3FFF_FFFF ==> (course << 1) == 2 * course) by (bit_vector);
}

/// What happens in the student's plan window; the course is chosen there.
pub enum PlanEvent {
    Opened,
    Refresh(i32),
    ExportToExcel(i32),
}

pub enum PlanAction {
    Load(String),
    Export(i32),
}

/// The student's plan window: it opens on the first course, reloads the
/// chosen course, and exports the chosen course.
pub fn show_plan_for_student(student: &Student, event: PlanEvent) -> (r: PlanAction)
    requires
        event is Refresh ==> course_in_range(event->Refresh_0),
    ensures
        event is Opened ==> r is Load && r->Load_0@ == student_plan_sql(student.number as int, 1),
        event is Refresh ==> r is Load
            && r->Load_0@ == student_plan_sql(student.number as int, event->Refresh_0),
        event is ExportToExcel ==> r is Export && r->Export_0 == event->ExportToExcel_0,
{
    match event {
        PlanEvent::Opened => {
            proof { course_semesters(1); }
            PlanAction::Load(student_plan_query(student.number, 1))
        },
        PlanEvent::Refresh(course) => PlanAction::Load(student_plan_query(student.number, course)),
        PlanEvent::ExportToExcel(course) => PlanAction::Export(course),
    }
}

/// A row of `get_student_plan`.
pub struct StudentPlanRow {
    pub subject: String,
    pub semester: i64,
    pub hours: i64,
    pub certification: String,
}

/// The texts that the student's plan window shows for a row: subject,
/// semester, hours, certification type.
pub open spec fn plan_row_texts(row: StudentPlanRow) -> Seq<Seq<char>> {
    seq![row.subject@, dec_int(row.semester as int), dec_int(row.hours as int), row.certification@]
}

/// The cells that the student's plan window shows for a row.
pub fn plan_row(row: &StudentPlanRow) -> (r: Vec<String>)
    ensures
        r.len() == 4,
        forall|j: int| 0 <= j < 4 ==> #[trigger] r[j]@ == plan_row_texts(*row)[j],
        r[0]@ == row.subject@,
        r[1]@ == dec_int(row.semester as int),
        r[2]@ == dec_int(row.hours as int),
        r[3]@ == row.certification@,
{
    let mut r: Vec<String> = Vec::new();
    r.push(row.subject.clone());
    r.push(i64_to_string(row.semester));
    r.push(i64_to_string(row.hours));
    r.push(row.certification.clone());
    r
}


/// Builds the query for the rows of the table.
pub fn list_query() -> (r: String)
    ensures
        r@ == list_sql(),
{
    String::from_str("select * from get_academic_plan;")
}

/// The query for the specialization names offered in the plan dialogs.
pub open spec fn specializations_sql() -> Seq<char> {
    "select full_name from specialization;"@
}

pub fn specializations_query() -> (r: String)
    ensures
        r@ == specializations_sql(),
{
    String::from_str("select full_name from specialization;")
}

/// The query for the subject names offered in the plan dialogs.
pub open spec fn subjects_sql() -> Seq<char> {
    "select name from subject;"@
}

pub fn subjects_query() -> (r: String)
    ensures
        r@ == subjects_sql(),
{
    String::from_str("select name from subject;")
}

/// The query for the certification types offered in the plan dialogs.
pub open spec fn certification_types_sql() -> Seq<char> {
    "select name from certification_type;"@
}

pub fn certification_types_query() -> (r: String)
    ensures
        r@ == certification_types_sql(),
{
    String::from_str("select name from certification_type;")
}

} // verus!
