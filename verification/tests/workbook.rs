use calamine::Reader;
use rust_xlsxwriter::{Workbook, Worksheet};
use sheet_filter::error::ErrorKind;
use sheet_filter::reader::{grid_of_read, FIRST_SHEET};
use sheet_filter::transform::{transform, transform_grid, written_at};
use sheet_filter::writer::{bytes_of_save, sheet_of_rows, write_rows};

fn table(rows: &[&[&str]]) -> Vec<Vec<String>> {
    rows.iter().map(|cells| cells.iter().map(|cell| cell.to_string()).collect()).collect()
}

fn read_sheet(bytes: &[u8]) -> Result<Option<Vec<Vec<String>>>, String> {
    let source = std::io::Cursor::new(bytes);
    let mut book = calamine::open_workbook_auto_from_rs(source).map_err(|e| e.to_string())?;
    match book.worksheet_range_at(FIRST_SHEET) {
        None => Ok(None),
        Some(Err(e)) => Err(e.to_string()),
        Some(Ok(range)) => Ok(Some(
            range.rows().map(|row| row.iter().map(|cell| cell.to_string()).collect()).collect(),
        )),
    }
}

fn read_back(bytes: &[u8]) -> Result<Vec<Vec<String>>, ErrorKind> {
    grid_of_read(read_sheet(bytes))
}

fn phone_book() -> Vec<Vec<String>> {
    table(&[&["이름", "휴대폰번호"], &["홍길동", "010-1111"], &["김철수", "02-2222"]])
}

#[test]
fn bytes_that_are_no_workbook_are_a_parse_error() {
    let outcome = read_back(b"this is not a workbook");
    assert!(matches!(outcome, Err(ErrorKind::ParseError(_))));
    assert_eq!(outcome, Err(ErrorKind::ParseError("Cannot detect file format".to_string())));
    assert!(matches!(read_back(&[]), Err(ErrorKind::ParseError(_))));
}

#[test]
fn a_read_without_a_worksheet_is_no_sheet_error() {
    assert_eq!(grid_of_read(Ok(None)), Err(ErrorKind::NoSheetError));
}

#[test]
fn a_failed_read_is_a_parse_error_with_its_message() {
    assert_eq!(
        grid_of_read(Err("broken".to_string())),
        Err(ErrorKind::ParseError("broken".to_string()))
    );
}

#[test]
fn a_read_worksheet_is_the_grid() {
    assert_eq!(grid_of_read(Ok(Some(phone_book()))), Ok(phone_book()));
    assert_eq!(grid_of_read(Ok(Some(Vec::new()))), Ok(Vec::new()));
}

#[test]
fn written_rows_are_read_back_cell_for_cell() {
    let rows = phone_book();
    let bytes = write_rows(&rows).unwrap();
    assert_ne!(bytes, Vec::<u8>::new());
    assert_eq!(read_back(&bytes), Ok(rows));
}

#[test]
fn rows_and_columns_keep_their_order() {
    let rows = table(&[&["c", "a", "b"], &["3", "1", "2"], &["z", "y", "x"], &["3", "1", "2"]]);
    let bytes = write_rows(&rows).unwrap();
    assert_eq!(read_back(&bytes), Ok(rows));
}

#[test]
fn no_rows_make_a_worksheet_without_rows() {
    let bytes = write_rows(&Vec::new()).unwrap();
    assert_eq!(read_back(&bytes), Ok(Vec::new()));
}

#[test]
fn an_empty_text_leaves_no_cell() {
    let rows = table(&[&["a", "", "c"], &["", "e", ""]]);
    let bytes = write_rows(&rows).unwrap();
    assert_eq!(read_back(&bytes), Ok(table(&[&["a", "", "c"], &["", "e", ""]])));
    let sparse = table(&[&["a"], &["b", "c"]]);
    let bytes = write_rows(&sparse).unwrap();
    assert_eq!(read_back(&bytes), Ok(table(&[&["a", ""], &["b", "c"]])));
}

#[test]
fn cells_are_written_as_text() {
    let rows = table(&[&["007", "1e3", "TRUE", "=1+1", " 2 "]]);
    let bytes = write_rows(&rows).unwrap();
    assert_eq!(read_back(&bytes), Ok(rows));
}

#[test]
fn cells_of_any_type_are_read_as_text() {
    let mut book = Workbook::new();
    let sheet = book.add_worksheet();
    sheet.write_string(0, 0, "n").unwrap();
    sheet.write_number(0, 1, 42).unwrap();
    sheet.write_number(0, 2, 1.5).unwrap();
    sheet.write_boolean(0, 3, true).unwrap();
    let bytes = book.save_to_buffer().unwrap();
    assert_eq!(read_back(&bytes), Ok(table(&[&["n", "42", "1.5", "true"]])));
}

#[test]
fn the_first_worksheet_is_the_one_read() {
    let mut book = Workbook::new();
    book.add_worksheet().write_string(0, 0, "first").unwrap();
    book.add_worksheet().write_string(0, 0, "second").unwrap();
    let bytes = book.save_to_buffer().unwrap();
    assert_eq!(read_back(&bytes), Ok(table(&[&["first"]])));
}

#[test]
fn a_text_of_the_greatest_length_is_written() {
    let rows = vec![vec!["가".repeat(32_767)]];
    let bytes = write_rows(&rows).unwrap();
    assert_eq!(read_back(&bytes), Ok(rows));
}

#[test]
fn a_text_too_long_for_a_cell_is_a_write_error() {
    let rows = vec![vec!["a".to_string()], vec!["b".to_string(), "가".repeat(32_768)]];
    assert!(matches!(write_rows(&rows), Err(ErrorKind::WriteError(_))));
    assert!(matches!(sheet_of_rows(&rows), Err(ErrorKind::WriteError(_))));
    assert_eq!(
        write_rows(&rows),
        Err(ErrorKind::WriteError("String exceeds Excel's limit of 32,767 characters.".to_string()))
    );
}

#[test]
fn a_cell_past_the_last_column_is_a_write_error() {
    let mut wide = vec![String::new(); 16_384];
    wide[16_383] = "last".to_string();
    assert!(write_rows(&vec![wide.clone()]).is_ok());
    wide.push("one too many".to_string());
    assert_eq!(
        write_rows(&vec![wide.clone()]),
        Err(ErrorKind::WriteError(
            "Row or column exceeds Excel's allowed limits (1,048,576 x 16,384).".to_string()
        ))
    );
    wide[16_384] = String::new();
    assert!(write_rows(&vec![wide]).is_ok());
}

#[test]
fn a_cell_past_the_last_row_is_a_write_error() {
    let mut tall: Vec<Vec<String>> = vec![Vec::new(); 1_048_576];
    tall[1_048_575] = vec!["last".to_string()];
    assert!(sheet_of_rows(&tall).is_ok());
    tall.push(vec!["one too many".to_string()]);
    assert!(matches!(sheet_of_rows(&tall), Err(ErrorKind::WriteError(_))));
    assert_eq!(
        sheet_of_rows(&tall).err(),
        sheet_of_rows(&vec![vec![String::new(), "x".to_string()]; 1_048_577]).err()
    );
    tall[1_048_576] = vec![String::new()];
    assert!(sheet_of_rows(&tall).is_ok());
}

#[test]
fn the_worksheet_made_of_rows_holds_them() {
    let sheet: Worksheet = sheet_of_rows(&phone_book()).unwrap();
    let mut book = Workbook::new();
    book.push_worksheet(sheet);
    let bytes = book.save_to_buffer().unwrap();
    assert_eq!(read_back(&bytes), Ok(phone_book()));
}

#[test]
fn a_failed_save_is_a_write_error() {
    assert_eq!(bytes_of_save(Ok(vec![1, 2, 3])), Ok(vec![1, 2, 3]));
    assert_eq!(
        bytes_of_save(Err("Parameter error: 'bad'.".to_string())),
        Err(ErrorKind::WriteError("Parameter error: 'bad'.".to_string()))
    );
}

#[test]
fn a_run_keeps_the_rows_with_the_prefix() {
    let input = write_rows(&phone_book()).unwrap();
    let out = transform(read_sheet(&input), "휴대폰번호", "01").unwrap();
    assert_eq!(out.rows, table(&[&["홍길동", "010-1111"]]));
    assert_eq!(out.condition, None);
    assert_eq!(read_back(&out.workbook), Ok(table(&[&["홍길동", "010-1111"]])));
}

#[test]
fn a_run_without_the_column_writes_no_rows() {
    let input = write_rows(&table(&[&["이름", "주소"], &["홍길동", "010-1111"]])).unwrap();
    let out = transform(read_sheet(&input), "휴대폰번호", "01").unwrap();
    assert_eq!(out.rows, Vec::<Vec<String>>::new());
    assert_eq!(out.condition, Some(ErrorKind::ColumnNotFound("휴대폰번호".to_string())));
    assert_eq!(read_back(&out.workbook), Ok(Vec::new()));
}

#[test]
fn a_run_on_a_worksheet_without_cells_writes_no_rows() {
    let input = write_rows(&Vec::new()).unwrap();
    let out = transform(read_sheet(&input), "휴대폰번호", "01").unwrap();
    assert_eq!(out.rows, Vec::<Vec<String>>::new());
    assert_eq!(out.condition, None);
    assert_eq!(read_back(&out.workbook), Ok(Vec::new()));
}

#[test]
fn a_run_drops_rows_without_the_cell() {
    let grid = table(&[&["이름", "휴대폰번호"], &["홍길동"], &["김철수", "010-2222"]]);
    let out = transform_grid(&grid, "휴대폰번호", "01").unwrap();
    assert_eq!(out.rows, table(&[&["김철수", "010-2222"]]));
    assert_eq!(read_back(&out.workbook), Ok(table(&[&["김철수", "010-2222"]])));
}

#[test]
fn a_run_on_bytes_that_are_no_workbook_fails() {
    let outcome = transform(read_sheet(&[0u8; 64]), "휴대폰번호", "01");
    assert!(matches!(outcome, Err(ErrorKind::ParseError(_))));
}

#[test]
fn a_run_fails_where_a_kept_row_cannot_be_written() {
    let grid = vec![
        vec!["phone".to_string(), "note".to_string()],
        vec!["010".to_string(), "x".repeat(40_000)],
        vec!["020".to_string(), "short".to_string()],
    ];
    assert!(matches!(transform_grid(&grid, "phone", "01"), Err(ErrorKind::WriteError(_))));
    let out = transform_grid(&grid, "phone", "02").unwrap();
    assert_eq!(out.rows, table(&[&["020", "short"]]));
}

#[test]
fn two_runs_on_one_input_write_the_same_cells() {
    let input = write_rows(&phone_book()).unwrap();
    let first = transform(read_sheet(&input), "휴대폰번호", "0").unwrap();
    let second = transform(read_sheet(&input), "휴대폰번호", "0").unwrap();
    assert_eq!(first.rows, second.rows);
    assert_eq!(first.condition, second.condition);
    assert_eq!(read_back(&first.workbook), read_back(&second.workbook));
    assert_eq!(
        read_back(&first.workbook),
        Ok(table(&[&["홍길동", "010-1111"], &["김철수", "02-2222"]]))
    );
}

#[test]
fn the_new_workbook_has_one_worksheet() {
    let bytes = write_rows(&phone_book()).unwrap();
    let book = calamine::open_workbook_auto_from_rs(std::io::Cursor::new(bytes)).unwrap();
    assert_eq!(book.sheet_names().len(), 1);
    let mut book = sheet_filter::writer::book_of_rows(&phone_book()).unwrap();
    assert_eq!(book.worksheets().len(), 1);
}

#[test]
fn a_written_workbook_is_told_by_its_path() {
    let told = written_at("out/filtered.xlsx".to_string(), Ok(()));
    assert_eq!(told, Ok("out/filtered.xlsx".to_string()));
}

#[test]
fn a_workbook_that_could_not_be_written_is_a_write_error() {
    assert_eq!(
        written_at("out/filtered.xlsx".to_string(), Err("No space left on device".to_string())),
        Err(ErrorKind::WriteError("No space left on device".to_string()))
    );
}

#[test]
fn the_first_cell_that_is_refused_gives_the_message() {
    let too_long = "x".repeat(32_768);
    let mut wide = vec![String::new(); 16_385];
    wide[16_384] = "past the last column".to_string();
    let long_first = vec![vec!["a".to_string(), too_long.clone()], wide.clone()];
    assert_eq!(
        write_rows(&long_first),
        Err(ErrorKind::WriteError("String exceeds Excel's limit of 32,767 characters.".to_string()))
    );
    let wide_first = vec![wide, vec!["a".to_string(), too_long]];
    assert_eq!(
        write_rows(&wide_first),
        Err(ErrorKind::WriteError(
            "Row or column exceeds Excel's allowed limits (1,048,576 x 16,384).".to_string()
        ))
    );
}

#[test]
fn a_run_on_a_failed_read_is_a_parse_error_with_its_message() {
    assert_eq!(
        transform(Err("Cannot detect file format".to_string()), "휴대폰번호", "01"),
        Err(ErrorKind::ParseError("Cannot detect file format".to_string()))
    );
}

#[test]
fn a_run_on_a_workbook_without_worksheets_is_no_sheet_error() {
    assert_eq!(transform(Ok(None), "휴대폰번호", "01"), Err(ErrorKind::NoSheetError));
}

#[test]
fn a_run_on_a_read_grid_is_a_run_on_the_grid() {
    let out = transform(Ok(Some(phone_book())), "휴대폰번호", "01").unwrap();
    assert_eq!(out.rows, table(&[&["홍길동", "010-1111"]]));
    assert_eq!(out.condition, None);
    assert_eq!(read_back(&out.workbook), Ok(table(&[&["홍길동", "010-1111"]])));
    let same = transform_grid(&phone_book(), "휴대폰번호", "01").unwrap();
    assert_eq!(same.rows, out.rows);
    assert_eq!(same.condition, out.condition);
}

#[test]
fn the_first_worksheet_is_worksheet_zero() {
    assert_eq!(FIRST_SHEET, 0);
}

#[test]
fn a_text_keeps_its_leading_zero() {
    let grid = table(&[&["phone"], &["010"], &["0010"], &["10"]]);
    let out = transform_grid(&grid, "phone", "0").unwrap();
    assert_eq!(out.rows, table(&[&["010"], &["0010"]]));
    assert_eq!(read_back(&out.workbook), Ok(table(&[&["010"], &["0010"]])));
}
