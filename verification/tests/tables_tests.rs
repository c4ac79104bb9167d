use deanery::authorization::{subject_line, FullName, Group, Student, Teacher, TeacherPlanRow};
use deanery::tables::academic_plan::{self, AcademicPlanRow, PlanAction, PlanEvent, StudentPlanRow};
use deanery::tables::accounts::{student as student_accounts, teachers as teacher_accounts};
use deanery::tables::group::{
    self, group_from_str, group_name, show_group_for_student, GroupListRow, GroupMemberRow, StudentTableAction,
    StudentTableEvent,
};
use deanery::tables::specialization::{self, SpecializationRow};
use deanery::tables::student::{self, StudentListRow};
use deanery::tables::student_card::{
    self, show_admin_marks, show_choose_group, show_marks_for_student, ChooseGroupAction, ChooseGroupEvent,
    StudentCardRow, StudentMarkRow,
};
use deanery::tables::subject::{self, SubjectRow};
use deanery::tables::teacher::{self, get_marks, TeacherGroupRow, TeacherTableAction, TeacherTableEvent};
use deanery::tables::{
    get_plan_id, get_spec_name, group_names, groups_by_name_query, mark_text, show_admin_menu, show_student_menu,
    show_teacher_menu, AdminMenuItem, AdminScreen, GroupNameRow, StudentMenuAction, StudentMenuEvent,
    TableAction, TableEvent, TeacherMenuAction, TeacherMenuEvent,
};

fn student() -> Student {
    Student::new(
        "petrov",
        17,
        FullName {
            first_name: "Иван".to_string(),
            second_name: "Петров".to_string(),
            middle_name: "Сергеевич".to_string(),
        },
        Group {
            specialization_id: 3,
            specialization_name: "ПИ".to_string(),
            id: 11,
            year: 2021,
            number: 2,
            cifr: "ПИ".to_string(),
        },
    )
}

fn cells(v: &[&str]) -> Vec<String> {
    v.iter().map(|s| s.to_string()).collect()
}

#[test]
fn group_from_str_reads_three_fields() {
    assert_eq!(group_from_str("ИСП-2021-1"), Some(("ИСП", 2021, 1)));
    assert_eq!(group_from_str("a-b-c"), Some(("a", 0, 0)));
    assert_eq!(group_from_str("a-1-2-3"), Some(("a", 1, 2)));
    assert_eq!(group_from_str("a--2"), Some(("a", 0, 2)));
    assert_eq!(group_from_str("abc"), None);
    assert_eq!(group_from_str("a-1"), None);
    assert_eq!(group_from_str(""), None);
}

#[test]
fn group_name_round_trip_sample() {
    let name = group_name("ПИ", 2021, 2);
    assert_eq!(name, "ПИ-2021-2");
    assert_eq!(group_from_str(&name), Some(("ПИ", 2021, 2)));
    assert_eq!(group_from_str(&group_name("X", 0, i32::MAX as i64)), Some(("X", 0, i32::MAX)));
}

#[test]
fn negative_year_does_not_round_trip() {
    let name = group_name("c", -5, 3);
    assert_eq!(name, "c--5-3");
    assert_eq!(group_from_str(&name), Some(("c", 0, 5)));
}

#[test]
fn admin_menu_opens_each_table() {
    assert!(matches!(show_admin_menu(AdminMenuItem::Specializations), AdminScreen::SpecializationTable));
    assert!(matches!(show_admin_menu(AdminMenuItem::Groups), AdminScreen::GroupTable));
    assert!(matches!(show_admin_menu(AdminMenuItem::Students), AdminScreen::StudentTable));
    assert!(matches!(show_admin_menu(AdminMenuItem::Subjects), AdminScreen::SubjectTable));
    assert!(matches!(show_admin_menu(AdminMenuItem::AcademicPlan), AdminScreen::AcademicPlanTable));
    assert!(matches!(show_admin_menu(AdminMenuItem::StudentsCards), AdminScreen::ChooseGroupForMarks));
    assert!(matches!(show_admin_menu(AdminMenuItem::StudentAccounts), AdminScreen::StudentAccountTable));
    assert!(matches!(show_admin_menu(AdminMenuItem::TeacherAccounts), AdminScreen::TeacherAccountTable));
}

#[test]
fn student_menu_shows_student_and_opens_windows() {
    let s = student();
    match show_student_menu(&s, StudentMenuEvent::Opened) {
        StudentMenuAction::SetInfo(info) => assert_eq!(info, "Петров Иван Сергеевич ПИ-2021-2"),
        _ => panic!("opening shows the student"),
    }
    assert!(matches!(show_student_menu(&s, StudentMenuEvent::Group), StudentMenuAction::OpenGroup));
    assert!(matches!(show_student_menu(&s, StudentMenuEvent::Plan), StudentMenuAction::OpenPlan));
    assert!(matches!(show_student_menu(&s, StudentMenuEvent::Marks), StudentMenuAction::OpenMarks));
}

#[test]
fn plan_line_fields() {
    let line = "12; ПИ; Базы данных; Экзамен; 72; 3";
    assert_eq!(get_spec_name(line), Some("ПИ"));
    assert_eq!(get_plan_id(line), Some(12));
    assert_eq!(get_plan_id("-4; X"), Some(-4));
}

#[test]
fn plan_line_round_trip_sample() {
    let row = TeacherPlanRow {
        id: 77,
        specialization_name: "Прикладная;информатика;".to_string(),
        subject_name: "Сети".to_string(),
        certification_type: "Зачет".to_string(),
        hours: 36,
        semester: 2,
    };
    let line = subject_line(&row);
    assert_eq!(get_plan_id(&line), Some(77));
    assert_eq!(get_spec_name(&line), Some("Прикладная;информатика;"));
}

#[test]
fn teacher_menu_lists_groups_and_opens_group() {
    let t = Teacher::new("t", vec!["12; ПИ; Базы данных; Экзамен; 72; 3".to_string()]);
    match show_teacher_menu(&t, &TeacherMenuEvent::Opened) {
        TeacherMenuAction::LoadGroups(q) => assert_eq!(q, "select * from get_groups_by_name('ПИ');"),
        _ => panic!("opening lists groups"),
    }
    match show_teacher_menu(&t, &TeacherMenuEvent::UpdateGroups("3; ИС; Сети; Зачет; 36; 4".to_string())) {
        TeacherMenuAction::LoadGroups(q) => assert_eq!(q, "select * from get_groups_by_name('ИС');"),
        _ => panic!("choosing a line lists groups"),
    }
    match show_teacher_menu(&t, &TeacherMenuEvent::ShowGroup(t.subjects[0].clone(), "ПИ-2021-2".to_string())) {
        TeacherMenuAction::OpenGroupTable { plan_id, cifr, year, number } => {
            assert_eq!((plan_id, cifr.as_str(), year, number), (12, "ПИ", 2021, 2));
        }
        _ => panic!("a group opens its table"),
    }
    match show_teacher_menu(&t, &TeacherMenuEvent::ShowGroup(t.subjects[0].clone(), "ПИ".to_string())) {
        TeacherMenuAction::ShowError(m) => assert_eq!(m, "Ошибка данных"),
        _ => panic!("a malformed group is reported"),
    }
}

#[test]
fn groups_by_name() {
    assert_eq!(groups_by_name_query("ПИ"), "select * from get_groups_by_name('ПИ');");
    let rows = vec![
        GroupNameRow { cifr: "ПИ".to_string(), year: 2021, number: 1 },
        GroupNameRow { cifr: "ИС".to_string(), year: 2022, number: 3 },
    ];
    assert_eq!(group_names(&rows), vec!["ПИ-2021-1", "ИС-2022-3"]);
}

#[test]
fn missing_mark_text() {
    assert_eq!(mark_text(&None), "Нет оценки");
    assert_eq!(mark_text(&Some("Хорошо".to_string())), "Хорошо");
}

#[test]
fn group_table_window() {
    match group::show_full_table(&TableEvent::Opened, &vec![]) {
        TableAction::Show { title, columns, query } => {
            assert_eq!(title, "Группы");
            assert_eq!(columns, vec!["ID", "Название", "Специальность"]);
            assert_eq!(query, "select * from get_group;");
        }
        _ => panic!("opening shows the table"),
    }
    let rows = vec![cells(&["4", "ПИ-2021-2", "ПИ"]), cells(&["5", "bad", "ИС"])];
    match group::show_full_table(&TableEvent::ChangeRow(-1), &rows) {
        TableAction::ShowError(m) => assert_eq!(m, "Выберите строку"),
        _ => panic!("no selection"),
    }
    match group::show_full_table(&TableEvent::ChangeRow(0), &rows) {
        TableAction::OpenChangeDialog(e) => {
            assert_eq!((e.id, e.year, e.number, e.cifr.as_str()), (4, 2021, 2, "ПИ"));
        }
        _ => panic!("a selected row opens the dialog"),
    }
    match group::show_full_table(&TableEvent::ChangeRow(1), &rows) {
        TableAction::ShowError(m) => assert_eq!(m, "Ошибка данных"),
        _ => panic!("a malformed group is reported"),
    }
    let big = vec![cells(&["4294967301", "A-1-1", "x"])];
    match group::show_full_table(&TableEvent::ChangeRow(0), &big) {
        TableAction::OpenChangeDialog(e) => assert_eq!(e.id, 4294967301i64 as i32),
        _ => panic!("the id is truncated"),
    }
    assert!(matches!(group::show_full_table(&TableEvent::Refresh, &rows), TableAction::Load(q) if q == "select * from get_group;"));
    assert!(matches!(group::show_full_table(&TableEvent::ExportToExcel, &rows), TableAction::Export));
    assert!(matches!(group::show_full_table(&TableEvent::AddNew, &rows), TableAction::OpenAddDialog));
}

#[test]
fn group_queries() {
    assert_eq!(group::add_group_query(2021, 2, "ПИ"), "select add_group(2021, 2, 'ПИ');");
    assert_eq!(group::update_group_query(4, 2022, 1, "ИС"), "select update_group(4, 2022, 1, 'ИС');");
    assert_eq!(group::delete_group_query(-3), "select delete_group(-3);");
    assert_eq!(
        group::students_in_group_query("ПИ", 2021, 2),
        "SELECT second_name, first_name, middle_name FROM get_students_in_group('ПИ', 2021, 2) order by second_name;"
    );
    let row = GroupListRow { id: 8, name: "ПИ-2021-2".to_string(), specialization: "ПИ".to_string() };
    assert_eq!(group::data_row(&row), vec!["8", "ПИ-2021-2", "ПИ"]);
    let m = GroupMemberRow { second_name: "Петров".to_string(), first_name: "Иван".to_string(), middle_name: "С".to_string() };
    assert_eq!(group::member_row(&m), vec!["Петров Иван С"]);
}

#[test]
fn student_group_window() {
    let s = student();
    for ev in [StudentTableEvent::Opened, StudentTableEvent::Refresh] {
        match show_group_for_student(&s, ev) {
            StudentTableAction::Load(q) => assert_eq!(
                q,
                "SELECT second_name, first_name, middle_name FROM get_students_in_group('ПИ', 2021, 2) order by second_name;"
            ),
            _ => panic!("loads the group"),
        }
    }
    assert!(matches!(show_group_for_student(&s, StudentTableEvent::ExportToExcel), StudentTableAction::Export));
}

#[test]
fn student_plan_window() {
    let s = student();
    match academic_plan::show_plan_for_student(&s, PlanEvent::Opened) {
        PlanAction::Load(q) => assert_eq!(
            q,
            "select * from get_student_plan(17) where semester = 2 or semester = 1 order by semester;"
        ),
        _ => panic!("opens on the first course"),
    }
    match academic_plan::show_plan_for_student(&s, PlanEvent::Refresh(3)) {
        PlanAction::Load(q) => assert_eq!(
            q,
            "select * from get_student_plan(17) where semester = 6 or semester = 5 order by semester;"
        ),
        _ => panic!("reloads a course"),
    }
    assert!(matches!(academic_plan::show_plan_for_student(&s, PlanEvent::ExportToExcel(2)), PlanAction::Export(2)));
    assert_eq!(
        academic_plan::student_plan_query(1, -1),
        "select * from get_student_plan(1) where semester = -2 or semester = -3 order by semester;"
    );
    assert_eq!(
        academic_plan::student_plan_query(1, 0x5000_0000),
        format!(
            "select * from get_student_plan(1) where semester = {} or semester = {} order by semester;",
            0x5000_0000i32 << 1,
            (0x5000_0000i32 << 1) - 1
        )
    );
}

#[test]
fn academic_plan_table() {
    let rows = vec![cells(&["3", "ПИ", "Сети", "Зачет", "36", "2"])];
    match academic_plan::show_full_table(&TableEvent::ChangeRow(0), &rows) {
        TableAction::OpenChangeDialog(e) => {
            assert_eq!((e.id, e.hours, e.semester), (3, 36, 2));
            assert_eq!((e.specialization.as_str(), e.subject.as_str(), e.certification.as_str()), ("ПИ", "Сети", "Зачет"));
        }
        _ => panic!("opens the dialog"),
    }
    match academic_plan::show_full_table(&TableEvent::Opened, &rows) {
        TableAction::Show { title, columns, query } => {
            assert_eq!(title, "Учебный план");
            assert_eq!(columns.len(), 6);
            assert_eq!(query, "select * from get_academic_plan;");
        }
        _ => panic!("opens"),
    }
    assert_eq!(
        academic_plan::add_plan_query("ПИ", "Сети", "Зачет", 36, 2),
        "select add_academic_plan('ПИ', 'Сети', 'Зачет', 36, 2);"
    );
    assert_eq!(
        academic_plan::update_plan_query(3, "ПИ", "Сети", "Экзамен", 72, 4),
        "select update_academic_plan(3, 'ПИ', 'Сети', 'Экзамен', 72, 4);"
    );
    assert_eq!(academic_plan::delete_plan_query(3), "select delete_academic_plan(3);");
    let r = AcademicPlanRow {
        id: 1,
        specialization: "ПИ".to_string(),
        subject: "Сети".to_string(),
        certification: "Зачет".to_string(),
        hours: 36,
        semester: 2,
    };
    assert_eq!(academic_plan::data_row(&r), vec!["1", "ПИ", "Сети", "Зачет", "36", "2"]);
    let p = StudentPlanRow { subject: "Сети".to_string(), semester: 2, hours: 36, certification: "Зачет".to_string() };
    assert_eq!(academic_plan::plan_row(&p), vec!["Сети", "2", "36", "Зачет"]);
}

#[test]
fn account_tables() {
    let rows = vec![cells(&["ivan", "5"])];
    match student_accounts::show_full_table(&TableEvent::ExportToExcel, &rows) {
        TableAction::ShowError(m) => assert_eq!(m, "Невозможно экспортировать в xlsx"),
        _ => panic!("accounts are not exported"),
    }
    match student_accounts::show_full_table(&TableEvent::ChangeRow(0), &rows) {
        TableAction::OpenChangeDialog(login) => assert_eq!(login, "ivan"),
        _ => panic!("opens the dialog"),
    }
    match teacher_accounts::show_full_table(&TableEvent::ChangeRow(-2), &rows) {
        TableAction::ShowError(m) => assert_eq!(m, "Выберите строку"),
        _ => panic!("no selection"),
    }
    match teacher_accounts::show_full_table(&TableEvent::Opened, &rows) {
        TableAction::Show { title, columns, query } => {
            assert_eq!(title, "Логины преподавателей");
            assert_eq!(columns, vec!["Логин"]);
            assert_eq!(query, "select login from \"users\" where id_role = 4;");
        }
        _ => panic!("opens"),
    }
    let hashed = deanery::authorization::get_hashed_password("pw");
    assert_eq!(
        student_accounts::create_login_query("ivan", "pw", 5),
        format!("select create_student_login('ivan', '{hashed}', 5);")
    );
    assert_eq!(
        teacher_accounts::create_login_query("anna", "pw"),
        format!("select create_teacher_login('anna', '{hashed}');")
    );
    assert_eq!(student_accounts::delete_login_query("ivan"), "select delete_student_login('ivan');");
    assert_eq!(teacher_accounts::delete_login_query("anna"), "select delete_teacher_login('anna');");
    assert_eq!(
        student_accounts::data_row(&student_accounts::StudentLoginRow { login: "ivan".to_string(), id: 5 }),
        vec!["ivan", "5"]
    );
    assert_eq!(teacher_accounts::data_row("anna"), vec!["anna"]);
}

#[test]
fn created_password_is_the_login_password() {
    let hashed = deanery::authorization::get_hashed_password("s3cret");
    let created = student_accounts::create_login_query("ivan", "s3cret", 1);
    let login = deanery::authorization::check_user_query("ivan", "s3cret");
    assert!(created.contains(&format!("'{hashed}'")));
    assert!(login.ends_with(&format!("users.password = '{hashed}'")));
}

#[test]
fn specialization_table() {
    let rows = vec![cells(&["9", "ПИ", "Программная инженерия"])];
    match specialization::show_full_table(&TableEvent::ChangeRow(0), &rows) {
        TableAction::OpenChangeDialog(e) => {
            assert_eq!((e.id, e.cifr.as_str(), e.name.as_str()), (9, "ПИ", "Программная инженерия"))
        }
        _ => panic!("opens the dialog"),
    }
    assert_eq!(specialization::add_specialization_query("ПИ", "Инженерия"), "select add_specialization('ПИ', 'Инженерия');");
    assert_eq!(
        specialization::update_specialization_query(9, "ПИ", "Инженерия"),
        "select update_specialization(9, 'ПИ', 'Инженерия');"
    );
    assert_eq!(specialization::delete_specialization_query(9), "select delete_specialization(9);");
    let r = SpecializationRow { id: 9, cifr: "ПИ".to_string(), full_name: "Инженерия".to_string() };
    assert_eq!(specialization::data_row(&r), vec!["9", "ПИ", "Инженерия"]);
}

#[test]
fn student_table() {
    let rows = vec![cells(&["7", "Иван", "Петров", "С", "ПИ-2021-2"])];
    match student::show_full_table(&TableEvent::ChangeRow(0), &rows) {
        TableAction::OpenChangeDialog(e) => {
            assert_eq!(e.id, 7);
            assert_eq!(e.group, "ПИ-2021-2");
        }
        _ => panic!("opens the dialog"),
    }
    assert_eq!(
        student::add_student_query("Иван", "Петров", "С", "ПИ-2021-2"),
        Some("select add_student('Иван', 'Петров', 'С', 'ПИ', 2021, 2);".to_string())
    );
    assert_eq!(student::add_student_query("Иван", "Петров", "С", "ПИ"), None);
    assert_eq!(
        student::update_student_query(7, "Иван", "Петров", "С", "ИС-2020-1"),
        Some("select update_student(7, 'Иван', 'Петров', 'С', 'ИС', 2020, 1);".to_string())
    );
    assert_eq!(student::update_student_query(7, "a", "b", "c", "x-y"), None);
    assert_eq!(student::delete_student_query(7), "select delete_student(7);");
    let r = StudentListRow {
        id: 7,
        first_name: "Иван".to_string(),
        second_name: "Петров".to_string(),
        middle_name: "С".to_string(),
        year: 2021,
        number: 2,
        cifr: "ПИ".to_string(),
    };
    assert_eq!(student::data_row(&r), vec!["7", "Иван", "Петров", "С", "ПИ-2021-2"]);
}

#[test]
fn subject_table() {
    let rows = vec![cells(&["2", "Сети"])];
    match subject::show_full_table(&TableEvent::ChangeRow(0), &rows) {
        TableAction::OpenChangeDialog(e) => assert_eq!((e.id, e.name.as_str()), (2, "Сети")),
        _ => panic!("opens the dialog"),
    }
    match subject::show_full_table(&TableEvent::Opened, &rows) {
        TableAction::Show { columns, .. } => assert_eq!(columns, vec!["ID", "Шифр"]),
        _ => panic!("opens"),
    }
    assert_eq!(subject::add_subject_query("Сети"), "select add_subject('Сети');");
    assert_eq!(subject::update_subject_query(2, "Сети"), "select update_subject(2, 'Сети');");
    assert_eq!(subject::delete_subject_query(2), "select delete_subject(2);");
    assert_eq!(subject::data_row(&SubjectRow { id: 2, name: "Сети".to_string() }), vec!["2", "Сети"]);
}

#[test]
fn teacher_group_table() {
    let rows = vec![cells(&["31", "Иван Петров С", "Зачет", "Нет оценки"])];
    match teacher::show_full_table(12, "ПИ", 2021, 2, &TeacherTableEvent::Opened, &rows) {
        TeacherTableAction::Load(q) => {
            assert_eq!(q, "select * from get_students_by_plan_in_group(12, 'ПИ', 2021, 2);")
        }
        _ => panic!("loads"),
    }
    match teacher::show_full_table(12, "ПИ", 2021, 2, &TeacherTableEvent::Mark(0), &rows) {
        TeacherTableAction::OpenMarkDialog(t) => {
            assert_eq!((t.student_id, t.plan_id), (31, 12));
            assert_eq!(t.name, "Иван Петров С");
            assert_eq!(t.certification, "Зачет");
        }
        _ => panic!("marks"),
    }
    match teacher::show_full_table(12, "ПИ", 2021, 2, &TeacherTableEvent::Mark(-1), &rows) {
        TeacherTableAction::ShowError(m) => assert_eq!(m, "Выберите строку"),
        _ => panic!("no selection"),
    }
    assert_eq!(teacher::mark_student_query(12, 31, "Хорошо"), "select mark_student(12, 31, 'Хорошо');");
    let r = TeacherGroupRow {
        id: 31,
        first_name: "Иван".to_string(),
        second_name: "Петров".to_string(),
        middle_name: "С".to_string(),
        certification: "Экзамен".to_string(),
        mark: None,
    };
    assert_eq!(teacher::data_row(&r), vec!["31", "Иван Петров С", "Экзамен", "Нет оценки"]);
}

#[test]
fn marks_offered() {
    assert_eq!(get_marks("Зачет"), vec!["Зачет", "Не зачет", "Не явка"]);
    assert_eq!(
        get_marks("Экзамен"),
        vec!["Не явка", "Не удовлетворительно", "Удовлетворительно", "Хорошо", "Отлично"]
    );
    for c in ["Зачет", "Экзамен", "", "зачет"] {
        assert!(get_marks(c).iter().any(|m| m == "Не явка"));
    }
}

#[test]
fn student_card_windows() {
    match show_choose_group(&ChooseGroupEvent::Opened) {
        ChooseGroupAction::LoadGroups(q) => assert_eq!(q, "select name from get_group;"),
        _ => panic!("lists groups"),
    }
    match show_choose_group(&ChooseGroupEvent::Chosen("ПИ-2021-2".to_string())) {
        ChooseGroupAction::OpenMarks { cifr, year, number } => assert_eq!((cifr.as_str(), year, number), ("ПИ", 2021, 2)),
        _ => panic!("opens marks"),
    }
    assert!(matches!(show_choose_group(&ChooseGroupEvent::Chosen("ПИ".to_string())), ChooseGroupAction::Ignore));
    match show_admin_marks("ПИ", 2021, 2, StudentTableEvent::Refresh) {
        StudentTableAction::Load(q) => assert_eq!(q, "select * from get_student_card_for('ПИ', 2021, 2)"),
        _ => panic!("loads"),
    }
    match show_marks_for_student(&student(), StudentTableEvent::Opened) {
        StudentTableAction::Load(q) => assert_eq!(q, "SELECT * FROM get_marks_student(17) order by semester;"),
        _ => panic!("loads"),
    }
    assert!(matches!(show_marks_for_student(&student(), StudentTableEvent::ExportToExcel), StudentTableAction::Export));
    let c = StudentCardRow {
        id: 1,
        first_name: "Иван".to_string(),
        second_name: "Петров".to_string(),
        subject: "Сети".to_string(),
        semester: 2,
        certification: "Зачет".to_string(),
        mark: Some("Зачет".to_string()),
    };
    assert_eq!(student_card::card_row(&c), vec!["1", "Иван", "Петров", "Сети", "2", "Зачет", "Зачет"]);
    let m = StudentMarkRow {
        subject: "Сети".to_string(),
        semester: 2,
        hours: 36,
        certification: "Зачет".to_string(),
        mark: None,
    };
    assert_eq!(student_card::mark_row(&m), vec!["Сети", "2", "36", "Зачет", "Нет оценки"]);
}
