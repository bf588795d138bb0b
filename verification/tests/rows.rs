use users_api::model::User;
use users_api::store::{
    user_from_row, users_from_rows, Column, DecodeError, Failure, Row, NAME_COLUMN,
};

fn row_of(columns: Vec<Column>) -> Row {
    Row { columns }
}

#[test]
fn the_name_is_the_second_column() {
    assert_eq!(NAME_COLUMN, 1);
    let row = row_of(vec![Column::Integer(3), Column::Text("Alice".to_string())]);
    assert_eq!(user_from_row(&row), Ok(User { name: "Alice".to_string() }));
}

#[test]
fn columns_after_the_name_are_ignored() {
    let row = row_of(vec![
        Column::Text("first".to_string()),
        Column::Text("second".to_string()),
        Column::Text("third".to_string()),
        Column::Blob(vec![1, 2]),
        Column::Real(1.5f64.to_bits()),
    ]);
    assert_eq!(user_from_row(&row), Ok(User { name: "second".to_string() }));
}

#[test]
fn a_row_without_columns_has_no_name() {
    assert_eq!(user_from_row(&row_of(Vec::new())), Err(DecodeError::NoSuchColumn));
}

#[test]
fn a_row_of_one_column_has_no_name() {
    let row = row_of(vec![Column::Text("Alice".to_string())]);
    assert_eq!(user_from_row(&row), Err(DecodeError::NoSuchColumn));
}

#[test]
fn a_name_must_be_text() {
    for second in [
        Column::Null,
        Column::Integer(5),
        Column::Real(0),
        Column::Blob(b"Alice".to_vec()),
    ] {
        let row = row_of(vec![Column::Integer(1), second]);
        assert_eq!(user_from_row(&row), Err(DecodeError::NotText));
    }
}

#[test]
fn decode_errors_in_words() {
    assert_eq!(DecodeError::NoSuchColumn.message(), "invalid column index");
    assert_eq!(DecodeError::NotText.message(), "invalid column type");
    assert_eq!(DecodeError::NoSuchColumn.name(), "InvalidColumnIndex");
    assert_eq!(DecodeError::NotText.name(), "InvalidColumnType");
}

#[test]
fn decode_errors_as_failures() {
    assert_eq!(
        DecodeError::NoSuchColumn.failure(),
        Failure { message: "invalid column index".to_string(), debug: "InvalidColumnIndex".to_string() }
    );
    assert_eq!(
        DecodeError::NotText.failure(),
        Failure { message: "invalid column type".to_string(), debug: "InvalidColumnType".to_string() }
    );
}

#[test]
fn no_rows_are_no_users() {
    assert_eq!(users_from_rows(&Vec::new()), Ok(Vec::new()));
}

#[test]
fn rows_become_users_in_order() {
    let rows = vec![
        row_of(vec![Column::Integer(2), Column::Text("Bob".to_string())]),
        row_of(vec![Column::Integer(1), Column::Text("Alice".to_string())]),
    ];
    assert_eq!(
        users_from_rows(&rows),
        Ok(vec![User { name: "Bob".to_string() }, User { name: "Alice".to_string() }])
    );
}

#[test]
fn the_first_bad_row_decides_the_error() {
    let rows = vec![
        row_of(vec![Column::Integer(1), Column::Text("Alice".to_string())]),
        row_of(vec![Column::Integer(2), Column::Null]),
        row_of(vec![Column::Integer(3)]),
    ];
    assert_eq!(users_from_rows(&rows), Err(DecodeError::NotText));
    let rows = vec![
        row_of(vec![Column::Integer(3)]),
        row_of(vec![Column::Integer(2), Column::Null]),
    ];
    assert_eq!(users_from_rows(&rows), Err(DecodeError::NoSuchColumn));
}
