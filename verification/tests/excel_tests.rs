use deanery::tables::academic_plan::{plan_row, AcademicPlanRow, StudentPlanRow};
use deanery::tables::group::{GroupListRow, GroupMemberRow};
use deanery::tables::specialization::SpecializationRow;
use deanery::tables::student::StudentListRow;
use deanery::tables::student_card::{StudentCardRow, StudentMarkRow};
use deanery::tables::subject::SubjectRow;
use deanery::to_excel::{
    export_academic_plan, export_group, export_specialization, export_student, export_subject, write_admin_marks,
    write_cells, write_student_group, write_student_marks, write_student_plan, Cell, CellValue,
};
use rust_xlsxwriter::{Workbook, Worksheet};
use std::io::Read;

fn saved(ws: Worksheet) -> Vec<u8> {
    let mut wb = Workbook::new();
    wb.push_worksheet(ws);
    wb.save_to_buffer().unwrap()
}

#[test]
fn exports_of_admin_tables_write_without_error() {
    let mut ws = Worksheet::new();
    export_group(&mut ws, &vec![GroupListRow { id: 1, name: "ПИ-2021-1".to_string(), specialization: "ПИ".to_string() }]);
    assert!(!saved(ws).is_empty());

    let mut ws = Worksheet::new();
    export_specialization(&mut ws, &vec![SpecializationRow { id: 2, cifr: "ПИ".to_string(), full_name: "Инженерия".to_string() }]);
    assert!(!saved(ws).is_empty());

    let mut ws = Worksheet::new();
    export_student(
        &mut ws,
        &vec![StudentListRow {
            id: 3,
            first_name: "Иван".to_string(),
            second_name: "Петров".to_string(),
            middle_name: "".to_string(),
            year: 2021,
            number: 1,
            cifr: "ПИ".to_string(),
        }],
    );
    assert!(!saved(ws).is_empty());

    let mut ws = Worksheet::new();
    export_subject(&mut ws, &vec![SubjectRow { id: 4, name: "Сети".to_string() }]);
    assert!(!saved(ws).is_empty());

    let mut ws = Worksheet::new();
    export_academic_plan(
        &mut ws,
        &vec![AcademicPlanRow {
            id: 5,
            specialization: "ПИ".to_string(),
            subject: "Сети".to_string(),
            certification: "Зачет".to_string(),
            hours: i64::MAX,
            semester: 1,
        }],
    );
    assert!(!saved(ws).is_empty());
}

#[test]
fn exports_of_student_data_write_without_error() {
    let mut ws = Worksheet::new();
    write_admin_marks(
        &mut ws,
        &vec![StudentCardRow {
            id: 1,
            first_name: "Иван".to_string(),
            second_name: "Петров".to_string(),
            subject: "Сети".to_string(),
            semester: 2,
            certification: "Зачет".to_string(),
            mark: None,
        }],
    );
    assert!(!saved(ws).is_empty());

    let mut ws = Worksheet::new();
    write_student_group(
        &mut ws,
        &vec![GroupMemberRow { second_name: "Петров".to_string(), first_name: "Иван".to_string(), middle_name: "С".to_string() }],
    );
    assert!(!saved(ws).is_empty());

    let mut ws = Worksheet::new();
    write_student_plan(
        &mut ws,
        &vec![StudentPlanRow { subject: "Сети".to_string(), semester: 1, hours: 36, certification: "Зачет".to_string() }],
    );
    assert!(!saved(ws).is_empty());

    let mut ws = Worksheet::new();
    write_student_marks(
        &mut ws,
        &vec![StudentMarkRow {
            subject: "Сети".to_string(),
            semester: 1,
            hours: 36,
            certification: "Зачет".to_string(),
            mark: Some("Зачет".to_string()),
        }],
    );
    assert!(!saved(ws).is_empty());
}

#[test]
fn empty_exports_write_only_the_header() {
    let mut ws = Worksheet::new();
    export_group(&mut ws, &vec![]);
    assert!(!saved(ws).is_empty());
}

#[test]
fn cell_writes_at_the_grid_edge() {
    let mut ws = Worksheet::new();
    let cells = vec![
        Cell { row: 1_048_575, col: 16_383, value: CellValue::Text("край".to_string()) },
        Cell { row: 0, col: 0, value: CellValue::Int(i32::MIN) },
        Cell { row: 0, col: 1, value: CellValue::Long(i64::MIN) },
        Cell { row: 0, col: 2, value: CellValue::Text(String::new()) },
        Cell { row: 0, col: 3, value: CellValue::Text("x".repeat(32_767)) },
    ];
    write_cells(&mut ws, &cells);
    assert!(!saved(ws).is_empty());
}

/// The worksheet's XML and the workbook's shared strings, as saved.
fn saved_xml(ws: Worksheet) -> (String, String) {
    let mut zip = zip::ZipArchive::new(std::io::Cursor::new(saved(ws))).unwrap();
    let mut sheet = String::new();
    zip.by_name("xl/worksheets/sheet1.xml").unwrap().read_to_string(&mut sheet).unwrap();
    let mut strings = String::new();
    if let Ok(mut file) = zip.by_name("xl/sharedStrings.xml") {
        file.read_to_string(&mut strings).unwrap();
    }
    (sheet, strings)
}

#[test]
fn group_export_writes_header_and_rows() {
    let mut ws = Worksheet::new();
    export_group(
        &mut ws,
        &vec![
            GroupListRow { id: 7, name: "ПИ-2021-1".to_string(), specialization: "Инженерия".to_string() },
            GroupListRow { id: 8, name: "ИС-2022-2".to_string(), specialization: "Системы".to_string() },
        ],
    );
    let (sheet, strings) = saved_xml(ws);
    for text in ["ID", "Название", "Специальность", "ПИ-2021-1", "Инженерия", "ИС-2022-2", "Системы"] {
        assert!(strings.contains(text), "missing {text}");
    }
    for cell in ["r=\"A1\"", "r=\"C1\"", "r=\"A2\"", "r=\"C3\""] {
        assert!(sheet.contains(cell), "missing {cell}");
    }
    assert!(sheet.contains("<v>7</v>"));
    assert!(sheet.contains("<v>8</v>"));
    assert!(!sheet.contains("r=\"A4\""));
    assert!(!sheet.contains("r=\"D1\""));
}

#[test]
fn student_marks_header_leaves_fifth_column_untitled() {
    let mut ws = Worksheet::new();
    write_student_marks(
        &mut ws,
        &vec![StudentMarkRow {
            subject: "Сети".to_string(),
            semester: 3,
            hours: 36,
            certification: "Зачет".to_string(),
            mark: None,
        }],
    );
    let (sheet, strings) = saved_xml(ws);
    assert!(strings.contains("Оценка"));
    assert!(strings.contains("Нет оценки"));
    assert!(!sheet.contains("r=\"E1\""));
    assert!(sheet.contains("r=\"E2\""));
    assert!(sheet.contains("<v>36</v>"));
}

#[test]
fn empty_texts_leave_cells_empty() {
    let mut ws = Worksheet::new();
    write_cells(
        &mut ws,
        &vec![
            Cell { row: 0, col: 0, value: CellValue::Text(String::new()) },
            Cell { row: 0, col: 1, value: CellValue::Text("b".to_string()) },
        ],
    );
    let (sheet, _) = saved_xml(ws);
    assert!(!sheet.contains("r=\"A1\""));
    assert!(sheet.contains("r=\"B1\""));
}

#[test]
fn later_writes_replace_earlier_ones() {
    let mut ws = Worksheet::new();
    write_cells(
        &mut ws,
        &vec![
            Cell { row: 0, col: 0, value: CellValue::Text("old".to_string()) },
            Cell { row: 0, col: 0, value: CellValue::Int(42) },
        ],
    );
    let (sheet, _) = saved_xml(ws);
    assert!(sheet.contains("<v>42</v>"));
    assert!(!sheet.contains("t=\"s\""));
}

#[test]
fn plan_export_shows_the_plan_window_rows() {

    let rows = vec![
        StudentPlanRow { subject: "Сети".to_string(), semester: 3, hours: 36, certification: "Зачет".to_string() },
        StudentPlanRow { subject: "Базы".to_string(), semester: 4, hours: 72, certification: "Экзамен".to_string() },
    ];
    let mut ws = Worksheet::new();
    write_student_plan(&mut ws, &rows);
    let (sheet, strings) = saved_xml(ws);
    for row in &rows {
        let shown = plan_row(row);
        assert!(strings.contains(&shown[0]));
        assert!(sheet.contains(&format!("<v>{}</v>", shown[1])));
        assert!(sheet.contains(&format!("<v>{}</v>", shown[2])));
        assert!(strings.contains(&shown[3]));
    }
    assert!(sheet.contains("r=\"D3\""));
    assert!(!sheet.contains("r=\"A4\""));
}
