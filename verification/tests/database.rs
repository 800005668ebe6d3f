use perekladach::database::{
    DbFailure, DbFailureKind, DeleteError, InsertError, SelectError,
};

fn failure(kind: DbFailureKind) -> DbFailure {
    DbFailure { kind, message: "boom".to_owned() }
}

#[test]
fn missing_row_is_no_data_found() {
    let e = SelectError::from_failure(failure(DbFailureKind::RowNotFound));
    assert_eq!(e.to_string(), "data not found");
    assert!(matches!(e, SelectError::NoDataFound(m) if m == "boom"));
    let e = SelectError::from_failure(failure(DbFailureKind::Other));
    assert!(matches!(e, SelectError::Other(m) if m == "boom"));
    let e = SelectError::from_failure(failure(DbFailureKind::Database {
        code: None,
        detail: "refused".to_owned(),
    }));
    assert!(matches!(e, SelectError::Other(m) if m == "boom"));
}

#[test]
fn duplicate_key_is_unique_violation() {
    let e = InsertError::from_failure(failure(DbFailureKind::Database {
        code: Some("23505".to_owned()),
        detail: "duplicate key value".to_owned(),
    }));
    assert_eq!(e.to_string(), "duplicate key value violates unique constraint");
    assert!(matches!(e, InsertError::UniqueViolation(m) if m == "duplicate key value"));
}

#[test]
fn other_insert_failures() {
    let e = InsertError::from_failure(failure(DbFailureKind::Database {
        code: Some("23503".to_owned()),
        detail: "foreign key".to_owned(),
    }));
    assert_eq!(e.to_string(), "boom");
    assert!(matches!(e, InsertError::Other(m) if m == "boom"));
    let e = InsertError::from_failure(failure(DbFailureKind::Database {
        code: None,
        detail: "refused".to_owned(),
    }));
    assert!(matches!(e, InsertError::Other(_)));
    let e = InsertError::from_failure(failure(DbFailureKind::RowNotFound));
    assert!(matches!(e, InsertError::Other(_)));
}

#[test]
fn delete_failure() {
    let e = DeleteError::from_failure(failure(DbFailureKind::RowNotFound));
    assert_eq!(e.to_string(), "boom");
    assert!(matches!(e, DeleteError::Other(m) if m == "boom"));
}
