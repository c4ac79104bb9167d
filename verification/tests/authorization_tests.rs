use std::hash::{DefaultHasher, Hash, Hasher};
use deanery::authorization::{
    after_login, check_user, check_user_query, get_hashed_password, student_from_info, student_info_query,
    subject_line, teacher_from_plan, teacher_plan_query, AccountRow, AfterLogin, FullName, Group, LoginStep,
    Student, StudentInfoRow, Teacher, TeacherPlanRow, User,
};

fn sample_group() -> Group {
    Group {
        specialization_id: 3,
        specialization_name: "Программная инженерия".to_string(),
        id: 11,
        year: 2021,
        number: 2,
        cifr: "ПИ".to_string(),
    }
}

fn sample_name() -> FullName {
    FullName {
        first_name: "Иван".to_string(),
        second_name: "Петров".to_string(),
        middle_name: "Сергеевич".to_string(),
    }
}

#[test]
fn group_is_shown_as_cifr_year_number() {
    assert_eq!(sample_group().to_string(), "ПИ-2021-2");
}

#[test]
fn full_name_is_shown_second_first_middle() {
    assert_eq!(sample_name().to_string(), "Петров Иван Сергеевич");
}

#[test]
fn student_is_shown_with_name_and_group() {
    let s = Student::new("petrov", 17, sample_name(), sample_group());
    assert_eq!(s.login, "petrov");
    assert_eq!(s.number, 17);
    assert_eq!(s.to_string(), "Петров Иван Сергеевич ПИ-2021-2");
    assert_eq!(s.duplicate().to_string(), s.to_string());
}

#[test]
fn teacher_new_keeps_login_and_subjects() {
    let t = Teacher::new("smirnova", vec!["1; ПИ; Базы данных; Экзамен; 72; 3".to_string()]);
    assert_eq!(t.login, "smirnova");
    assert_eq!(t.subjects.len(), 1);
}

#[test]
fn hashed_password_is_a_stable_numeral() {
    let a = get_hashed_password("secret");
    let b = get_hashed_password("secret");
    assert_eq!(a, b);
    assert!(!a.is_empty());
    assert!(a.chars().all(|c| c.is_ascii_digit()));
    assert_ne!(a, "secret");
    assert_ne!(get_hashed_password("secret"), get_hashed_password("secret2"));
    assert!(a.parse::<u64>().is_ok());
}

#[test]
fn hashed_password_matches_std_default_hasher() {
    let mut hasher = DefaultHasher::new();
    "пароль".hash(&mut hasher);
    assert_eq!(get_hashed_password("пароль"), hasher.finish().to_string());
}

#[test]
fn login_query_embeds_login_and_hash() {
    let q = check_user_query("ivan", "pw");
    assert_eq!(
        q,
        format!(
            "select login, password, id_role from users where users.login = 'ivan' and users.password = '{}'",
            get_hashed_password("pw")
        )
    );
    assert_eq!(student_info_query("ivan"), "select * from get_student_info('ivan');");
    assert_eq!(teacher_plan_query("ivan"), "select * from get_academic_plan_for_teacher('ivan')");
}

#[test]
fn no_matching_row_is_an_unknown_user() {
    assert!(matches!(check_user(&vec![]), LoginStep::Done(User::UnknownUser)));
}

#[test]
fn roles_route_the_login() {
    let row = |role| vec![AccountRow { login: "u".to_string(), id_role: role }];
    assert!(matches!(check_user(&row(1)), LoginStep::Done(User::Admin)));
    assert!(matches!(check_user(&row(2)), LoginStep::Done(User::Decan)));
    match check_user(&row(3)) {
        LoginStep::FetchStudentInfo { login, query } => {
            assert_eq!(login, "u");
            assert_eq!(query, "select * from get_student_info('u');");
        }
        _ => panic!("role 3 is a student"),
    }
    match check_user(&row(4)) {
        LoginStep::FetchTeacherPlan { login, query } => {
            assert_eq!(login, "u");
            assert_eq!(query, "select * from get_academic_plan_for_teacher('u')");
        }
        _ => panic!("role 4 is a teacher"),
    }
}

#[test]
fn student_is_read_from_info_row() {
    let row = StudentInfoRow {
        number: 5,
        first_name: "Анна".to_string(),
        second_name: "Иванова".to_string(),
        middle_name: "Олеговна".to_string(),
        group_id: 4,
        cifr: "ИС".to_string(),
        year: 2020,
        group_number: 1,
        specialization_id: 9,
        specialization_name: "Информационные системы".to_string(),
    };
    match student_from_info("anna", &row) {
        User::Student(s) => {
            assert_eq!(s.login, "anna");
            assert_eq!(s.number, 5);
            assert_eq!(s.group.id, 4);
            assert_eq!(s.group.specialization_id, 9);
            assert_eq!(s.to_string(), "Иванова Анна Олеговна ИС-2020-1");
        }
        _ => panic!("a student"),
    }
}

#[test]
fn teacher_plan_lines_are_formatted() {
    let rows = vec![
        TeacherPlanRow {
            id: 12,
            specialization_name: "ПИ".to_string(),
            subject_name: "Базы данных".to_string(),
            certification_type: "Экзамен".to_string(),
            hours: 72,
            semester: 3,
        },
        TeacherPlanRow {
            id: -1,
            specialization_name: "ИС".to_string(),
            subject_name: "Сети".to_string(),
            certification_type: "Зачет".to_string(),
            hours: 36,
            semester: 4,
        },
    ];
    assert_eq!(subject_line(&rows[0]), "12; ПИ; Базы данных; Экзамен; 72; 3");
    match teacher_from_plan("t", &rows) {
        User::Teacher(t) => {
            assert_eq!(t.login, "t");
            assert_eq!(t.subjects, vec!["12; ПИ; Базы данных; Экзамен; 72; 3", "-1; ИС; Сети; Зачет; 36; 4"]);
        }
        _ => panic!("a teacher"),
    }
}

#[test]
fn after_login_screens() {
    match after_login(&User::UnknownUser) {
        AfterLogin::ShowError(m) => assert_eq!(m, "Не верные логин или пароль"),
        _ => panic!("unknown users see an error"),
    }
    assert!(matches!(after_login(&User::Admin), AfterLogin::OpenAdminMenu));
    assert!(matches!(after_login(&User::Decan), AfterLogin::PrintUser));
    let s = Student::new("p", 1, sample_name(), sample_group());
    assert!(matches!(after_login(&User::Student(s)), AfterLogin::OpenStudentMenu));
    assert!(matches!(after_login(&User::Teacher(Teacher::new("t", vec![]))), AfterLogin::PrintUser));
}
