use pet_cli::DbError;

#[test]
fn io_error_is_read_error() {
    let e = DbError::from(std::io::Error::new(std::io::ErrorKind::NotFound, "no file"));
    assert!(matches!(e, DbError::ReadDBError(_)));
}

#[test]
fn json_error_is_parse_error() {
    let err = serde_json::from_str::<Vec<u32>>("[1,").unwrap_err();
    let e = DbError::from(err);
    assert!(matches!(e, DbError::ParseDBError(_)));
}
