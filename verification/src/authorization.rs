//! Users of the system, how they are shown, and the login decision.
use vstd::prelude::*;
use crate::tables::group::{group_name, group_text};
use crate::text::{field_separator, dec_int, dec_nat, push_int, u64_to_string, all_digits, is_digit, lemma_dec_nat_value};

verus! {

/// A student group.
#[derive(Debug)]
pub struct Group {
    pub specialization_id: i64,
    pub specialization_name: String,
    pub id: i64,
    pub year: i64,
    pub number: i64,
    pub cifr: String,
}

impl Group {
    pub open spec fn text(&self) -> Seq<char> {
        group_text(self.cifr@, self.year as int, self.number as int)
    }

    /// The group as shown to users: `cifr-year-number`.
    pub fn to_string(&self) -> (r: String)
        ensures
            r@ == self.text(),
    {
        group_name(self.cifr.as_str(), self.year, self.number)
    }

    /// A copy with the same field values.
    pub fn duplicate(&self) -> (r: Group)
        ensures
            r == *self,
    {
        Group {
            specialization_id: self.specialization_id,
            specialization_name: self.specialization_name.clone(),
            id: self.id,
            year: self.year,
            number: self.number,
            cifr: self.cifr.clone(),
        }
    }
}

/// A person's full name.
#[derive(Debug)]
pub struct FullName {
    pub first_name: String,
    pub second_name: String,
    pub middle_name: String,
}

/// `a b c`: three words separated by single spaces.
pub open spec fn three_words(a: Seq<char>, b: Seq<char>, c: Seq<char>) -> Seq<char> {
    a + seq![' '] + b + seq![' '] + c
}

/// `format!("{a} {b} {c}")`.
pub fn join_three_words(a: &str, b: &str, c: &str) -> (r: String)
    ensures
        r@ == three_words(a@, b@, c@),
{
    proof { reveal_strlit(" "); }
    let mut s = String::new();
    s.append(a);
    s.append(" ");
    s.append(b);
    s.append(" ");
    s.append(c);
    assert(s@ =~= three_words(a@, b@, c@));
    s
}

impl FullName {
    pub open spec fn text(&self) -> Seq<char> {
        three_words(self.second_name@, self.first_name@, self.middle_name@)
    }

    /// The name as shown to users: second name, first name, middle name.
    pub fn to_string(&self) -> (r: String)
        ensures
            r@ == self.text(),
    {
        join_three_words(self.second_name.as_str(), self.first_name.as_str(), self.middle_name.as_str())
    }

    /// A copy with the same field values.
    pub fn duplicate(&self) -> (r: FullName)
        ensures
            r == *self,
    {
        FullName {
            first_name: self.first_name.clone(),
            second_name: self.second_name.clone(),
            middle_name: self.middle_name.clone(),
        }
    }
}

/// A student: login, record number, name and group.
#[derive(Debug)]
pub struct Student {
    pub login: String,
    pub number: i32,
    pub full_name: FullName,
    pub group: Group,
}

impl Student {
    pub fn new(login: &str, number: i32, full_name: FullName, group: Group) -> (r: Student)
        ensures
            r.login@ == login@,
            r.number == number,
            r.full_name == full_name,
            r.group == group,
    {
        Student { login: login.to_owned(), number, full_name, group }
    }

    pub open spec fn text(&self) -> Seq<char> {
        self.full_name.text() + seq![' '] + self.group.text()
    }

    /// The student as shown to users: full name, a space, the group.
    pub fn to_string(&self) -> (r: String)
        ensures
            r@ == self.text(),
    {
        proof { reveal_strlit(" "); }
        let mut s = self.full_name.to_string();
        s.append(" ");
        let g = self.group.to_string();
        s.append(g.as_str());
        s
    }

    /// A copy with the same field values.
    pub fn duplicate(&self) -> (r: Student)
        ensures
            r == *self,
    {
        Student {
            login: self.login.clone(),
            number: self.number,
            full_name: self.full_name.duplicate(),
            group: self.group.duplicate(),
        }
    }
}

/// A teacher: login and the lines of the academic plan they teach.
#[derive(Debug)]
pub struct Teacher {
    pub login: String,
    pub subjects: Vec<String>,
}

impl Teacher {
    pub fn new(login: &str, subjects: Vec<String>) -> (r: Teacher)
        ensures
            r.login@ == login@,
            r.subjects == subjects,
    {
        Teacher { login: login.to_owned(), subjects }
    }
}

/// Who logged in.
#[derive(Debug)]
pub enum User {
    UnknownUser,
    Student(Student),
    Teacher(Teacher),
    Decan,
    Admin,
}


/// Name for the value that std's default hasher gives for a string: a
/// `DefaultHasher` made by `new` (SipHash-1-3 with fixed zero keys, the same
/// for every instance made by `new` or `default` in a given std release)
/// that has hashed the string with `Hash for str` and then `finish`ed.
pub uninterp spec fn std_default_hash(s: Seq<char>) -> u64;

/// Hashes `s` with std's `DefaultHasher`, as `s.hash(&mut
/// DefaultHasher::new()); hasher.finish()` does. The contract ties the
/// value to the string only: which value std's algorithm yields is left
/// unsaid.
#[verifier::external_body]
fn default_hash(s: &str) -> (h: u64)
    ensures
        h == std_default_hash(s@),
{
    std::hash::BuildHasher::hash_one(&std::hash::BuildHasherDefault::<std::hash::DefaultHasher>::default(), s)
}

/// The text stored for a password: the decimal numeral of its hash.
pub open spec fn hashed_password_text(password: Seq<char>) -> Seq<char> {
    dec_nat(std_default_hash(password) as nat)
}

proof fn lemma_dec_nat_digits(n: nat)
    ensures
        all_digits(dec_nat(n)),
        dec_nat(n).len() > 0,
    decreases n,
{
    if n >= 10 {
        lemma_dec_nat_digits(n / 10);
        assert forall|i: int| 0 <= i < dec_nat(n).len() implies is_digit(#[trigger] dec_nat(n)[i]) by {
            if i < dec_nat(n / 10).len() {
                assert(dec_nat(n)[i] == dec_nat(n / 10)[i]);
            }
        }
    }
}

/// The password as the users table stores it: the decimal numeral of its
/// std default hash. The text is never empty and holds decimal digits only.
pub fn get_hashed_password(password: &str) -> (r: String)
    ensures
        r@ == hashed_password_text(password@),
        r@ == dec_nat(std_default_hash(password@) as nat),
        r@.len() > 0,
        all_digits(r@),
{
    let h = default_hash(password);
    proof { lemma_dec_nat_digits(h as nat); }
    u64_to_string(h)
}

/// The stored text of a password is the decimal numeral of std's default
/// hash of the whole password; so two passwords are stored as the same text
/// exactly when their hashes are equal, whatever their lengths.
pub proof fn stored_password_is_hash_numeral(p: Seq<char>, q: Seq<char>)
    ensures
        hashed_password_text(p) == dec_nat(std_default_hash(p) as nat),
        hashed_password_text(p) == hashed_password_text(q) <==> std_default_hash(p) == std_default_hash(q),
{
    lemma_dec_nat_value(std_default_hash(p) as nat);
    lemma_dec_nat_value(std_default_hash(q) as nat);
}

/// The query that looks the user up by login and hashed password.
pub open spec fn check_user_sql(login: Seq<char>, password: Seq<char>) -> Seq<char> {
    "select login, password, id_role from users where users.login = '"@ + login
        + "' and users.password = '"@ + hashed_password_text(password) + "'"@
}

/// Builds the query that looks the user up by login and hashed password.
pub fn check_user_query(login: &str, password: &str) -> (r: String)
    ensures
        r@ == check_user_sql(login@, password@),
{
    let hashed = get_hashed_password(password);
    let mut s = String::new();
    s.append("select login, password, id_role from users where users.login = '");
    s.append(login);
    s.append("' and users.password = '");
    s.append(hashed.as_str());
    s.append("'");
    assert(s@ =~= check_user_sql(login@, password@));
    s
}

/// The query for a student's record, name and group.
pub open spec fn student_info_sql(login: Seq<char>) -> Seq<char> {
    "select * from get_student_info('"@ + login + "');"@
}

pub fn student_info_query(login: &str) -> (r: String)
    ensures
        r@ == student_info_sql(login@),
{
    let mut s = String::new();
    s.append("select * from get_student_info('");
    s.append(login);
    s.append("');");
    assert(s@ =~= student_info_sql(login@));
    s
}

/// The query for the lines of the academic plan a teacher teaches.
pub open spec fn teacher_plan_sql(login: Seq<char>) -> Seq<char> {
    "select * from get_academic_plan_for_teacher('"@ + login + "')"@
}

pub fn teacher_plan_query(login: &str) -> (r: String)
    ensures
        r@ == teacher_plan_sql(login@),
{
    let mut s = String::new();
    s.append("select * from get_academic_plan_for_teacher('");
    s.append(login);
    s.append("')");
    assert(s@ =~= teacher_plan_sql(login@));
    s
}

/// A row of the users table that matched the login and password.
pub struct AccountRow {
    pub login: String,
    pub id_role: i32,
}

/// The row that `get_student_info` gives for a student.
pub struct StudentInfoRow {
    pub number: i32,
    pub first_name: String,
    pub second_name: String,
    pub middle_name: String,
    pub group_id: i64,
    pub cifr: String,
    pub year: i64,
    pub group_number: i64,
    pub specialization_id: i64,
    pub specialization_name: String,
}

/// A row that `get_academic_plan_for_teacher` gives.
pub struct TeacherPlanRow {
    pub id: i64,
    pub specialization_name: String,
    pub subject_name: String,
    pub certification_type: String,
    pub hours: i64,
    pub semester: i64,
}

/// What comes of a login attempt once the users table has answered: a user,
/// or a further query whose rows make the user.
pub enum LoginStep {
    Done(User),
    FetchStudentInfo { login: String, query: String },
    FetchTeacherPlan { login: String, query: String },
}

/// The role ids of the users table.
pub open spec fn valid_role(id_role: i32) -> bool {
    1 <= id_role <= 4
}

/// Decides a login from the rows that matched the login and password: no
/// row is an unknown user; role 1 an administrator, 2 a dean, 3 a student
/// and 4 a teacher, the last two read by a further query with the login of
/// the first row.
pub fn check_user(rows: &Vec<AccountRow>) -> (r: LoginStep)
    requires
        rows.len() > 0 ==> valid_role(rows[0].id_role),
    ensures
        rows.len() == 0 ==> r is Done && r->Done_0 is UnknownUser,
        rows.len() > 0 && rows[0].id_role == 1 ==> r is Done && r->Done_0 is Admin,
        rows.len() > 0 && rows[0].id_role == 2 ==> r is Done && r->Done_0 is Decan,
        rows.len() > 0 && rows[0].id_role == 3 ==> r is FetchStudentInfo
            && r->FetchStudentInfo_login@ == rows[0].login@
            && r->FetchStudentInfo_query@ == student_info_sql(rows[0].login@),
        rows.len() > 0 && rows[0].id_role == 4 ==> r is FetchTeacherPlan
            && r->FetchTeacherPlan_login@ == rows[0].login@
            && r->FetchTeacherPlan_query@ == teacher_plan_sql(rows[0].login@),
{
    if rows.len() == 0 {
        return LoginStep::Done(User::UnknownUser);
    }
    let row = &rows[0];
    if row.id_role == 1 {
        LoginStep::Done(User::Admin)
    } else if row.id_role == 2 {
        LoginStep::Done(User::Decan)
    } else if row.id_role == 3 {
        let query = student_info_query(row.login.as_str());
        LoginStep::FetchStudentInfo { login: row.login.clone(), query }
    } else {
        let query = teacher_plan_query(row.login.as_str());
        LoginStep::FetchTeacherPlan { login: row.login.clone(), query }
    }
}

/// The student that a `get_student_info` row describes.
pub fn student_from_info(login: &str, row: &StudentInfoRow) -> (r: User)
    ensures
        r is Student,
        r->Student_0.login@ == login@,
        r->Student_0.number == row.number,
        r->Student_0.full_name.first_name == row.first_name,
        r->Student_0.full_name.second_name == row.second_name,
        r->Student_0.full_name.middle_name == row.middle_name,
        r->Student_0.group.id == row.group_id,
        r->Student_0.group.cifr == row.cifr,
        r->Student_0.group.year == row.year,
        r->Student_0.group.number == row.group_number,
        r->Student_0.group.specialization_id == row.specialization_id,
        r->Student_0.group.specialization_name == row.specialization_name,
{
    User::Student(Student::new(
        login,
        row.number,
        FullName {
            first_name: row.first_name.clone(),
            second_name: row.second_name.clone(),
            middle_name: row.middle_name.clone(),
        },
        Group {
            id: row.group_id,
            cifr: row.cifr.clone(),
            year: row.year,
            number: row.group_number,
            specialization_id: row.specialization_id,
            specialization_name: row.specialization_name.clone(),
        },
    ))
}

/// A line of a teacher's plan as the teacher menu lists it:
/// `id; specialization; subject; certification; hours; semester`.
pub open spec fn subject_line_text(
    id: int,
    specialization: Seq<char>,
    subject: Seq<char>,
    certification: Seq<char>,
    hours: int,
    semester: int,
) -> Seq<char> {
    let sep = field_separator();
    dec_int(id) + sep + specialization + sep + subject + sep + certification + sep
        + dec_int(hours) + sep + dec_int(semester)
}

pub open spec fn plan_row_line(row: TeacherPlanRow) -> Seq<char> {
    subject_line_text(
        row.id as int,
        row.specialization_name@,
        row.subject_name@,
        row.certification_type@,
        row.hours as int,
        row.semester as int,
    )
}

/// `format!("{id}; {spec_name}; {sub_name}; {cert_type}; {hours}; {semester}")`.
pub fn subject_line(row: &TeacherPlanRow) -> (r: String)
    ensures
        r@ == plan_row_line(*row),
{
    proof { reveal_strlit("; "); }
    assert("; "@ =~= field_separator());
    let mut s = String::new();
    push_int(&mut s, row.id);
    s.append("; ");
    s.append(row.specialization_name.as_str());
    s.append("; ");
    s.append(row.subject_name.as_str());
    s.append("; ");
    s.append(row.certification_type.as_str());
    s.append("; ");
    push_int(&mut s, row.hours);
    s.append("; ");
    push_int(&mut s, row.semester);
    assert(s@ =~= plan_row_line(*row));
    s
}

/// The teacher whose plan lines are `rows`, in the order given.
pub fn teacher_from_plan(login: &str, rows: &Vec<TeacherPlanRow>) -> (r: User)
    ensures
        r is Teacher,
        r->Teacher_0.login@ == login@,
        r->Teacher_0.subjects.len() == rows.len(),
        forall|i: int| 0 <= i < rows.len() ==> #[trigger] r->Teacher_0.subjects[i]@ == plan_row_line(rows[i]),
{
    let mut subjects: Vec<String> = Vec::new();
    let mut i: usize = 0;
    while i < rows.len()
        invariant
            i <= rows.len(),
            subjects.len() == i,
            forall|j: int| 0 <= j < i ==> #[trigger] subjects[j]@ == plan_row_line(rows[j]),
        decreases rows.len() - i,
    {
        subjects.push(subject_line(&rows[i]));
        i = i + 1;
    }
    User::Teacher(Teacher::new(login, subjects))
}

/// What the login window does once a user is known.
pub enum AfterLogin {
    ShowError(String),
    OpenAdminMenu,
    OpenStudentMenu,
    PrintUser,
}

/// After a login: an unknown user gets an error message, an administrator
/// the administrator menu, a student the student menu; deans and teachers
/// are only reported.
pub fn after_login(user: &User) -> (r: AfterLogin)
    ensures
        user is UnknownUser ==> r is ShowError && r->ShowError_0@ == "Не верные логин или пароль"@,
        user is Admin ==> r is OpenAdminMenu,
        user is Student ==> r is OpenStudentMenu,
        (user is Teacher || user is Decan) ==> r is PrintUser,
{
    match user {
        User::UnknownUser => AfterLogin::ShowError(String::from_str("Не верные логин или пароль")),
        User::Admin => AfterLogin::OpenAdminMenu,
        User::Student(_) => AfterLogin::OpenStudentMenu,
        _ => AfterLogin::PrintUser,
    }
}

} // verus!
