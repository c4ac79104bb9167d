//! Login accounts of students and teachers.
use vstd::prelude::*;
use crate::authorization::{hashed_password_text, check_user_sql};
use crate::text::dec_int;

pub mod student;
pub mod teachers;

verus! {

/// An account created with a password stores the very text that the login
/// query compares for that password: the hash numeral of the password,
/// whatever the login and record number.
pub proof fn created_password_authenticates(login: Seq<char>, password: Seq<char>, id: int)
    ensures
        student::create_login_sql(login, password, id) == "select create_student_login('"@ + login
            + "', '"@ + hashed_password_text(password) + "', "@ + dec_int(id) + ");"@,
        teachers::create_login_sql(login, password) == "select create_teacher_login('"@ + login
            + "', '"@ + hashed_password_text(password) + "');"@,
        check_user_sql(login, password) == "select login, password, id_role from users where users.login = '"@
            + login + "' and users.password = '"@ + hashed_password_text(password) + "'"@,
{
}

} // verus!
