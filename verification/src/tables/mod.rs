//! The tables of the dean's office and the menus that open them.
use vstd::prelude::*;
use crate::authorization::{Student, Teacher, subject_line_text};
use crate::tables::group::{group_from_str, group_from_text, group_name, group_text};
use crate::text::{
    dec_int, field_separator, occurs_in, parse_i32, parse_i32_spec, parse_i64_spec, split_fields, nth_field, first_field,
    lemma_parse_dec_int, lemma_dec_int_chars, lemma_split_pair_concat, lemma_absent_char_no_occurrence,
};

pub mod academic_plan;
pub mod accounts;
pub mod group;
pub mod specialization;
pub mod student;
pub mod student_card;
pub mod subject;
pub mod teacher;

verus! {

/// What happens in a full-table window of the administrator.
pub enum TableEvent {
    Opened,
    Refresh,
    ExportToExcel,
    AddNew,
    /// The change button, with the index of the selected row (negative when
    /// none is selected).
    ChangeRow(i32),
}

/// What a full-table window does; `E` is what the change dialog is opened
/// with.
pub enum TableAction<E> {
    /// Show the window: its title, column titles, and the query for its rows.
    Show { title: String, columns: Vec<String>, query: String },
    /// Reload the rows with the query.
    Load(String),
    /// Export the table to a worksheet file.
    Export,
    OpenAddDialog,
    OpenChangeDialog(E),
    ShowError(String),
}

/// A selected row exists and has at least `n` cells.
pub open spec fn row_has_cells(rows: Seq<Vec<String>>, row_index: i32, n: int) -> bool {
    0 <= row_index < rows.len() && rows[row_index as int].len() >= n
}

/// The text shown for a mark: the mark, or "Нет оценки" when there is none.
pub open spec fn mark_or_missing(mark: Option<String>) -> Seq<char> {
    match mark {
        Some(m) => m@,
        None => "Нет оценки"@,
    }
}

/// `mark.unwrap_or("Нет оценки")`, as an owned string.
pub fn mark_text(mark: &Option<String>) -> (r: String)
    ensures
        r@ == mark_or_missing(*mark),
{
    match mark {
        Some(m) => m.clone(),
        None => String::from_str("Нет оценки"),
    }
}

/// Column titles from literal texts.
pub fn titles(names: &[&str]) -> (r: Vec<String>)
    ensures
        r.len() == names@.len(),
        forall|i: int| 0 <= i < names@.len() ==> #[trigger] r[i]@ == names@[i]@,
{
    let mut out: Vec<String> = Vec::new();
    let mut i: usize = 0;
    while i < names.len()
        invariant
            i <= names@.len(),
            out.len() == i,
            forall|j: int| 0 <= j < i ==> #[trigger] out[j]@ == names@[j]@,
        decreases names@.len() - i,
    {
        out.push(String::from_str(names[i]));
        i = i + 1;
    }
    out
}

/// The buttons of the administrator menu.
pub enum AdminMenuItem {
    Specializations,
    Groups,
    Students,
    Subjects,
    AcademicPlan,
    StudentsCards,
    StudentAccounts,
    TeacherAccounts,
}

/// The windows the administrator menu opens.
pub enum AdminScreen {
    SpecializationTable,
    GroupTable,
    StudentTable,
    SubjectTable,
    AcademicPlanTable,
    ChooseGroupForMarks,
    StudentAccountTable,
    TeacherAccountTable,
}

/// The window that each button of the administrator menu opens.
pub fn show_admin_menu(item: AdminMenuItem) -> (r: AdminScreen)
    ensures
        item is Specializations <==> r is SpecializationTable,
        item is Groups <==> r is GroupTable,
        item is Students <==> r is StudentTable,
        item is Subjects <==> r is SubjectTable,
        item is AcademicPlan <==> r is AcademicPlanTable,
        item is StudentsCards <==> r is ChooseGroupForMarks,
        item is StudentAccounts <==> r is StudentAccountTable,
        item is TeacherAccounts <==> r is TeacherAccountTable,
{
    match item {
        AdminMenuItem::Specializations => AdminScreen::SpecializationTable,
        AdminMenuItem::Groups => AdminScreen::GroupTable,
        AdminMenuItem::Students => AdminScreen::StudentTable,
        AdminMenuItem::Subjects => AdminScreen::SubjectTable,
        AdminMenuItem::AcademicPlan => AdminScreen::AcademicPlanTable,
        AdminMenuItem::StudentsCards => AdminScreen::ChooseGroupForMarks,
        AdminMenuItem::StudentAccounts => AdminScreen::StudentAccountTable,
        AdminMenuItem::TeacherAccounts => AdminScreen::TeacherAccountTable,
    }
}

/// What happens in the student menu.
pub enum StudentMenuEvent {
    Opened,
    Group,
    Plan,
    Marks,
}

pub enum StudentMenuAction {
    SetInfo(String),
    OpenGroup,
    OpenPlan,
    OpenMarks,
}

/// The student menu: on opening it shows the student (name and group); its
/// buttons open the student's group, plan and marks.
pub fn show_student_menu(student: &Student, event: StudentMenuEvent) -> (r: StudentMenuAction)
    ensures
        event is Opened <==> (r is SetInfo && r->SetInfo_0@ == student.text()),
        event is Group <==> r is OpenGroup,
        event is Plan <==> r is OpenPlan,
        event is Marks <==> r is OpenMarks,
{
    match event {
        StudentMenuEvent::Opened => StudentMenuAction::SetInfo(student.to_string()),
        StudentMenuEvent::Group => StudentMenuAction::OpenGroup,
        StudentMenuEvent::Plan => StudentMenuAction::OpenPlan,
        StudentMenuEvent::Marks => StudentMenuAction::OpenMarks,
    }
}

/// A number that a table shows (ids, hours, semesters) reads back as the
/// same number when its row is chosen for a change, for every value in the
/// `i32` range, whether the cell is read as `i32` or as `i64`.
pub proof fn shown_numbers_read_back(v: int)
    requires
        i32::MIN <= v <= i32::MAX,
    ensures
        parse_i32_spec(dec_int(v)) == Some(v),
        parse_i64_spec(dec_int(v)) == Some(v),
{
    lemma_parse_dec_int(v);
}

/// The fields of a plan line of the teacher menu.
pub open spec fn subject_fields(subject: Seq<char>) -> Seq<Seq<char>> {
    split_fields(subject, field_separator())
}

/// The specialization of a plan line: its second `"; "`-separated field.
pub fn get_spec_name(subject: &str) -> (r: Option<&str>)
    requires
        subject_fields(subject@).len() > 1,
    ensures
        r is Some && r->0@ == subject_fields(subject@)[1],
{
    proof { reveal_strlit("; "); }
    assert("; "@ =~= field_separator());
    match nth_field(subject, "; ", 1) {
        Some(f) => Some(f),
        None => None,
    }
}

/// The academic plan id of a plan line: its first field, read as `i32`.
pub fn get_plan_id(subject: &str) -> (r: Option<i32>)
    requires
        parse_i32_spec(subject_fields(subject@)[0]) is Some,
    ensures
        r is Some && r->0 == parse_i32_spec(subject_fields(subject@)[0])->0,
{
    proof { reveal_strlit("; "); }
    assert("; "@ =~= field_separator());
    let first = first_field(subject, "; ");
    parse_i32(first)
}

/// A plan line read back: the plan id is the line's id and the
/// specialization is the line's specialization, when the id fits `i32` and
/// `"; "` does not occur in the specialization.
pub proof fn subject_line_round_trip(
    id: int,
    specialization: Seq<char>,
    subject: Seq<char>,
    certification: Seq<char>,
    hours: int,
    semester: int,
)
    requires
        i32::MIN <= id <= i32::MAX,
        !occurs_in(field_separator(), specialization),
    ensures
        parse_i32_spec(subject_fields(subject_line_text(id, specialization, subject, certification, hours, semester))[0]) == Some(id),
        subject_fields(subject_line_text(id, specialization, subject, certification, hours, semester))[1] == specialization,
{
    let sep = field_separator();
    let d = dec_int(id);
    let rest2 = subject + sep + certification + sep + dec_int(hours) + sep + dec_int(semester);
    let rest1 = specialization + sep + rest2;
    let line = subject_line_text(id, specialization, subject, certification, hours, semester);
    assert(line =~= d + sep + rest1);
    assert(rest1 =~= specialization + sep + rest2);
    lemma_dec_int_chars(id, ';');
    lemma_absent_char_no_occurrence(sep, d);
    lemma_split_pair_concat(d, sep, rest1);
    lemma_split_pair_concat(specialization, sep, rest2);
    lemma_parse_dec_int(id);
}

/// The query for the groups of a specialization.
pub open spec fn groups_by_name_sql(spec_name: Seq<char>) -> Seq<char> {
    "select * from get_groups_by_name('"@ + spec_name + "');"@
}

pub fn groups_by_name_query(spec_name: &str) -> (r: String)
    ensures
        r@ == groups_by_name_sql(spec_name@),
{
    let mut s = String::new();
    s.append("select * from get_groups_by_name('");
    s.append(spec_name);
    s.append("');");
    assert(s@ =~= groups_by_name_sql(spec_name@));
    s
}

/// A row of `get_groups_by_name`.
pub struct GroupNameRow {
    pub cifr: String,
    pub year: i64,
    pub number: i64,
}

/// The group names listed for the rows of `get_groups_by_name`.
pub fn group_names(rows: &Vec<GroupNameRow>) -> (r: Vec<String>)
    ensures
        r.len() == rows.len(),
        forall|i: int| 0 <= i < rows.len() ==> #[trigger] r[i]@
            == group_text(rows[i].cifr@, rows[i].year as int, rows[i].number as int),
{
    let mut out: Vec<String> = Vec::new();
    let mut i: usize = 0;
    while i < rows.len()
        invariant
            i <= rows.len(),
            out.len() == i,
            forall|j: int| 0 <= j < i ==> #[trigger] out[j]@
                == group_text(rows[j].cifr@, rows[j].year as int, rows[j].number as int),
        decreases rows.len() - i,
    {
        out.push(group_name(rows[i].cifr.as_str(), rows[i].year, rows[i].number));
        i = i + 1;
    }
    out
}

/// What happens in the teacher menu.
pub enum TeacherMenuEvent {
    Opened,
    /// A plan line was chosen.
    UpdateGroups(String),
    /// A group was chosen for a plan line.
    ShowGroup(String, String),
}

pub enum TeacherMenuAction {
    /// Run the query and list the group names of its rows.
    LoadGroups(String),
    /// Open the marks table of a group for a plan line.
    OpenGroupTable { plan_id: i32, cifr: String, year: i32, number: i32 },
    ShowError(String),
}

/// The inputs on which the teacher menu does not fail.
pub open spec fn teacher_menu_accepts(teacher: &Teacher, event: &TeacherMenuEvent) -> bool {
    match event {
        TeacherMenuEvent::Opened => teacher.subjects.len() > 0 && subject_fields(teacher.subjects[0]@).len() > 1,
        TeacherMenuEvent::UpdateGroups(subject) => subject_fields(subject@).len() > 1,
        TeacherMenuEvent::ShowGroup(subject, _) => parse_i32_spec(subject_fields(subject@)[0]) is Some,
    }
}

/// The teacher menu: on opening, and when a plan line is chosen, it lists
/// the groups of the line's specialization; choosing a group opens that
/// group's table for the line's plan id, or reports a malformed group name.
pub fn show_teacher_menu(teacher: &Teacher, event: &TeacherMenuEvent) -> (r: TeacherMenuAction)
    requires
        teacher_menu_accepts(teacher, event),
    ensures
        event is Opened ==> r is LoadGroups
            && r->LoadGroups_0@ == groups_by_name_sql(subject_fields(teacher.subjects[0]@)[1]),
        event is UpdateGroups ==> r is LoadGroups
            && r->LoadGroups_0@ == groups_by_name_sql(subject_fields(event->UpdateGroups_0@)[1]),
        event is ShowGroup ==> match group_from_text(event->ShowGroup_1@) {
            Some((cifr, year, number)) => r is OpenGroupTable
                && r->plan_id == parse_i32_spec(subject_fields(event->ShowGroup_0@)[0])->0
                && r->OpenGroupTable_cifr@ == cifr && r->OpenGroupTable_year == year
                && r->OpenGroupTable_number == number,
            None => r is ShowError && r->ShowError_0@ == "Ошибка данных"@,
        },
{
    match event {
        TeacherMenuEvent::Opened => {
            let spec_name = get_spec_name(teacher.subjects[0].as_str()).unwrap();
            TeacherMenuAction::LoadGroups(groups_by_name_query(spec_name))
        },
        TeacherMenuEvent::UpdateGroups(subject) => {
            let spec_name = get_spec_name(subject.as_str()).unwrap();
            TeacherMenuAction::LoadGroups(groups_by_name_query(spec_name))
        },
        TeacherMenuEvent::ShowGroup(subject, group) => {
            let plan_id = get_plan_id(subject.as_str()).unwrap();
            match group_from_str(group.as_str()) {
                Some((cifr, year, number)) => TeacherMenuAction::OpenGroupTable {
                    plan_id,
                    cifr: cifr.to_owned(),
                    year,
                    number,
                },
                None => TeacherMenuAction::ShowError(String::from_str("Ошибка данных")),
            }
        },
    }
}

} // verus!
