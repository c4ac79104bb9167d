//! Student groups: their names, the group table and its edits.
use vstd::prelude::*;
use crate::authorization::{Student, three_words, join_three_words};
use crate::tables::{TableEvent, TableAction, titles, row_has_cells};
use crate::text::{parse_i64, parse_i64_spec, dec_int, push_int, lemma_parse_dec_int, lemma_dec_int_chars, lemma_split_char_concat, lemma_split_char_absent, parse_i32_spec, split_fields, split_once, first_field, parse_i32_or_default, parse_i32_or_zero};

verus! {

/// The name of a group as the interface shows it: `cifr-year-number`.
pub open spec fn group_text(cifr: Seq<char>, year: int, number: int) -> Seq<char> {
    cifr + seq!['-'] + dec_int(year) + seq!['-'] + dec_int(number)
}

/// `format!("{cifr}-{year}-{number}")`.
pub fn group_name(cifr: &str, year: i64, number: i64) -> (r: String)
    ensures
        r@ == group_text(cifr@, year as int, number as int),
{
    proof { reveal_strlit("-"); }
    let mut s = String::new();
    s.append(cifr);
    s.append("-");
    push_int(&mut s, year);
    s.append("-");
    push_int(&mut s, number);
    assert(s@ =~= group_text(cifr@, year as int, number as int));
    s
}


/// What `group_from_str` gives for `s`: `None` when `s` has fewer than
/// three `-`-separated pieces, else the first piece with the second and
/// third read as `i32` (0 where they do not parse). Further pieces are
/// ignored.
pub open spec fn group_from_text(s: Seq<char>) -> Option<(Seq<char>, int, int)> {
    let f = split_fields(s, seq!['-']);
    if f.len() >= 3 {
        Some((f[0], parse_i32_or_zero(f[1]), parse_i32_or_zero(f[2])))
    } else {
        None
    }
}

/// Reads a group name `cifr-year-number` back into its parts.
pub fn group_from_str(s: &str) -> (r: Option<(&str, i32, i32)>)
    ensures
        match r {
            Some((cifr, year, number)) => group_from_text(s@) == Some((cifr@, year as int, number as int)),
            None => group_from_text(s@) is None,
        },
{
    proof { reveal_strlit("-"); }
    assert("-"@ =~= seq!['-']);
    let (cifr, rest) = match split_once(s, "-") {
        Some(p) => p,
        None => return None,
    };
    let (year_text, rest2) = match split_once(rest, "-") {
        Some(p) => p,
        None => return None,
    };
    let number_text = first_field(rest2, "-");
    let year = parse_i32_or_default(year_text);
    let number = parse_i32_or_default(number_text);
    proof {
        let f = split_fields(s@, seq!['-']);
        assert(f == seq![cifr@] + seq![year_text@] + split_fields(rest2@, seq!['-']));
        assert(f[0] == cifr@);
        assert(f[1] == year_text@);
        assert(f[2] == number_text@);
    }
    Some((cifr, year, number))
}


/// A group name reads back into the cipher, year and number it was made of,
/// when the cipher holds no `-` and the year and number are between 0 and
/// `i32::MAX`.
pub proof fn group_name_round_trip(cifr: Seq<char>, year: int, number: int)
    requires
        !cifr.contains('-'),
        0 <= year <= i32::MAX,
        0 <= number <= i32::MAX,
    ensures
        group_from_text(group_text(cifr, year, number)) == Some((cifr, year, number)),
{
    let y = dec_int(year);
    let n = dec_int(number);
    lemma_dec_int_chars(year, '-');
    lemma_dec_int_chars(number, '-');
    lemma_split_char_absent(n, '-');
    lemma_split_char_concat(y, '-', n);
    assert(group_text(cifr, year, number) =~= cifr + seq!['-'] + (y + seq!['-'] + n));
    lemma_split_char_concat(cifr, '-', y + seq!['-'] + n);
    let f = split_fields(group_text(cifr, year, number), seq!['-']);
    assert(f =~= seq![cifr, y, n]);
    lemma_parse_dec_int(year);
    lemma_parse_dec_int(number);
    assert(parse_i32_spec(y) == Some(year));
    assert(parse_i32_spec(n) == Some(number));
}


/// The title of the group table.
pub open spec fn title() -> Seq<char> {
    "Группы"@
}

/// The column titles of the group table, in order.
pub open spec fn column_titles() -> Seq<Seq<char>> {
    seq!["ID"@, "Название"@, "Специальность"@]
}

/// The column titles of the group table.
pub fn get_colums() -> (r: Vec<String>)
    ensures
        r.len() == 3,
        forall|j: int| 0 <= j < 3 ==> #[trigger] r[j]@ == column_titles()[j],
        r[0]@ == "ID"@,
        r[1]@ == "Название"@,
        r[2]@ == "Специальность"@,
{
    titles(&["ID", "Название", "Специальность"])
}

/// The query for the rows of the group table.
pub open spec fn list_sql() -> Seq<char> {
    "select * from get_group;"@
}

/// A row of `get_group`: id, group name, specialization.
pub struct GroupListRow {
    pub id: i32,
    pub name: String,
    pub specialization: String,
}

/// The texts that the group table shows for a row: ID, name,
/// specialization.
pub open spec fn row_texts(row: GroupListRow) -> Seq<Seq<char>> {
    seq![dec_int(row.id as int), row.name@, row.specialization@]
}

/// The cells that the group table shows for a row.
pub fn data_row(row: &GroupListRow) -> (r: Vec<String>)
    ensures
        r.len() == 3,
        forall|j: int| 0 <= j < 3 ==> #[trigger] r[j]@ == row_texts(*row)[j],
        r[0]@ == dec_int(row.id as int),
        r[1]@ == row.name@,
        r[2]@ == row.specialization@,
{
    let mut r: Vec<String> = Vec::new();
    r.push(crate::text::i64_to_string(row.id as i64));
    r.push(row.name.clone());
    r.push(row.specialization.clone());
    r
}

/// What the change dialog of the group table is opened with.
pub struct GroupEdit {
    pub id: i32,
    pub year: i32,
    pub number: i32,
    pub cifr: String,
}

/// The inputs on which the group table does not fail: a change needs a
/// selected row whose first cell is an `i64`, or no selection at all.
pub open spec fn full_table_accepts(event: &TableEvent, rows: Seq<Vec<String>>) -> bool {
    match event {
        TableEvent::ChangeRow(i) => *i < 0 || (row_has_cells(rows, *i, 2)
            && parse_i64_spec(rows[*i as int][0]@) is Some),
        _ => true,
    }
}

/// The group table window. A change without a selected row asks for one;
/// a selected row opens the change dialog with its id (read as `i64`, then
/// truncated to `i32`) and the parts of its group name, or reports a
/// malformed name.
pub fn show_full_table(event: &TableEvent, rows: &Vec<Vec<String>>) -> (r: TableAction<GroupEdit>)
    requires
        full_table_accepts(event, rows@),
    ensures
        event is Opened ==> r is Show && r->Show_title@ == title() && r->Show_query@ == list_sql()
            && r->Show_columns.len() == 3 && r->Show_columns[0]@ == "ID"@
            && r->Show_columns[1]@ == "Название"@ && r->Show_columns[2]@ == "Специальность"@,
        event is Refresh ==> r is Load && r->Load_0@ == list_sql(),
        event is ExportToExcel ==> r is Export,
        event is AddNew ==> r is OpenAddDialog,
        event is ChangeRow ==> {
            let i = event->ChangeRow_0;
            if i < 0 {
                r is ShowError && r->ShowError_0@ == "Выберите строку"@
            } else {
                match group_from_text(rows[i as int][1]@) {
                    Some((cifr, year, number)) => r is OpenChangeDialog
                        && r->OpenChangeDialog_0.id == (parse_i64_spec(rows[i as int][0]@)->0) as i32
                        && r->OpenChangeDialog_0.year == year
                        && r->OpenChangeDialog_0.number == number
                        && r->OpenChangeDialog_0.cifr@ == cifr,
                    None => r is ShowError && r->ShowError_0@ == "Ошибка данных"@,
                }
            }
        },
{
    match event {
        TableEvent::Opened => TableAction::Show {
            title: String::from_str("Группы"),
            columns: get_colums(),
            query: list_query(),
        },
        TableEvent::Refresh => TableAction::Load(list_query()),
        TableEvent::ExportToExcel => TableAction::Export,
        TableEvent::AddNew => TableAction::OpenAddDialog,
        TableEvent::ChangeRow(i) => {
            if *i < 0 {
                return TableAction::ShowError(String::from_str("Выберите строку"));
            }
            let row = &rows[*i as usize];
            let id: i64 = parse_i64(row[0].as_str()).unwrap();
            match group_from_str(row[1].as_str()) {
                Some((cifr, year, number)) => TableAction::OpenChangeDialog(GroupEdit {
                    id: id as i32,
                    year,
                    number,
                    cifr: cifr.to_owned(),
                }),
                None => TableAction::ShowError(String::from_str("Ошибка данных")),
            }
        },
    }
}

/// The query that adds a group.
pub open spec fn add_group_sql(year: int, number: int, cifr: Seq<char>) -> Seq<char> {
    "select add_group("@ + dec_int(year) + ", "@ + dec_int(number) + ", '"@ + cifr + "');"@
}

pub fn add_group_query(year: i32, number: i32, cifr: &str) -> (r: String)
    ensures
        r@ == add_group_sql(year as int, number as int, cifr@),
{
    let mut s = String::new();
    s.append("select add_group(");
    push_int(&mut s, year as i64);
    s.append(", ");
    push_int(&mut s, number as i64);
    s.append(", '");
    s.append(cifr);
    s.append("');");
    assert(s@ =~= add_group_sql(year as int, number as int, cifr@));
    s
}

/// The query that changes a group.
pub open spec fn update_group_sql(id: int, year: int, number: int, cifr: Seq<char>) -> Seq<char> {
    "select update_group("@ + dec_int(id) + ", "@ + dec_int(year) + ", "@ + dec_int(number) + ", '"@
        + cifr + "');"@
}

pub fn update_group_query(id: i32, year: i32, number: i32, cifr: &str) -> (r: String)
    ensures
        r@ == update_group_sql(id as int, year as int, number as int, cifr@),
{
    let mut s = String::new();
    s.append("select update_group(");
    push_int(&mut s, id as i64);
    s.append(", ");
    push_int(&mut s, year as i64);
    s.append(", ");
    push_int(&mut s, number as i64);
    s.append(", '");
    s.append(cifr);
    s.append("');");
    assert(s@ =~= update_group_sql(id as int, year as int, number as int, cifr@));
    s
}

/// The query that deletes a group.
pub open spec fn delete_group_sql(id: int) -> Seq<char> {
    "select delete_group("@ + dec_int(id) + ");"@
}

pub fn delete_group_query(id: i32) -> (r: String)
    ensures
        r@ == delete_group_sql(id as int),
{
    let mut s = String::new();
    s.append("select delete_group(");
    push_int(&mut s, id as i64);
    s.append(");");
    assert(s@ =~= delete_group_sql(id as int));
    s
}

/// The query for the members of a group, by second name.
pub open spec fn students_in_group_sql(cifr: Seq<char>, year: int, number: int) -> Seq<char> {
    "SELECT second_name, first_name, middle_name FROM get_students_in_group('"@ + cifr + "', "@
        + dec_int(year) + ", "@ + dec_int(number) + ") order by second_name;"@
}

pub fn students_in_group_query(cifr: &str, year: i64, number: i64) -> (r: String)
    ensures
        r@ == students_in_group_sql(cifr@, year as int, number as int),
{
    let mut s = String::new();
    s.append("SELECT second_name, first_name, middle_name FROM get_students_in_group('");
    s.append(cifr);
    s.append("', ");
    push_int(&mut s, year);
    s.append(", ");
    push_int(&mut s, number);
    s.append(") order by second_name;");
    assert(s@ =~= students_in_group_sql(cifr@, year as int, number as int));
    s
}

/// A row of `get_students_in_group`.
pub struct GroupMemberRow {
    pub second_name: String,
    pub first_name: String,
    pub middle_name: String,
}

/// The text shown for a group member: the full name, second name first.
pub open spec fn member_row_texts(row: GroupMemberRow) -> Seq<Seq<char>> {
    seq![three_words(row.second_name@, row.first_name@, row.middle_name@)]
}

/// The single cell shown for a group member: second, first and middle name.
pub fn member_row(row: &GroupMemberRow) -> (r: Vec<String>)
    ensures
        r.len() == 1,
        forall|j: int| 0 <= j < 1 ==> #[trigger] r[j]@ == member_row_texts(*row)[j],
        r[0]@ == three_words(row.second_name@, row.first_name@, row.middle_name@),
{
    let mut r: Vec<String> = Vec::new();
    r.push(join_three_words(row.second_name.as_str(), row.first_name.as_str(), row.middle_name.as_str()));
    r
}

/// What happens in a window that shows a student's data.
pub enum StudentTableEvent {
    Opened,
    Refresh,
    ExportToExcel,
}

/// What such a window does: load its rows with a query, or export them.
pub enum StudentTableAction {
    Load(String),
    Export,
}

/// The window with the members of the student's own group: it shows and
/// reloads the rows of the group's members.
pub fn show_group_for_student(student: &Student, event: StudentTableEvent) -> (r: StudentTableAction)
    ensures
        (event is Opened || event is Refresh) ==> r is Load && r->Load_0@ == students_in_group_sql(
            student.group.cifr@, student.group.year as int, student.group.number as int),
        event is ExportToExcel ==> r is Export,
{
    match event {
        StudentTableEvent::ExportToExcel => StudentTableAction::Export,
        _ => StudentTableAction::Load(students_in_group_query(
            student.group.cifr.as_str(), student.group.year, student.group.number)),
    }
}


/// Builds the query for the rows of the table.
pub fn list_query() -> (r: String)
    ensures
        r@ == list_sql(),
{
    String::from_str("select * from get_group;")
}

/// The query for the specialization ciphers offered in the group dialogs.
pub open spec fn cifrs_sql() -> Seq<char> {
    "select cifr from \"specialization\";"@
}

pub fn cifrs_query() -> (r: String)
    ensures
        r@ == cifrs_sql(),
{
    String::from_str("select cifr from \"specialization\";")
}

} // verus!
