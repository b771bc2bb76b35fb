use opencode_forger::db::query::{
    check_read_query, describe_table, format_table, format_value, i64_string,
    is_accepted_upper, is_corrupt_database_error_message, is_read_only_query, names_corruption_lower,
    SqlValue,
};

#[test]
fn read_only_statements() {
    assert!(is_read_only_query("  select * from features"));
    assert!(is_read_only_query("PRAGMA table_info(features)"));
    assert!(is_read_only_query("pragma foreign_key_list(x)"));
    assert!(!is_read_only_query("DELETE FROM features"));
    assert!(!is_read_only_query("PRAGMA journal_mode=WAL"));
    let err = check_read_query("DROP TABLE x").unwrap_err();
    assert_eq!(
        err.message,
        "read_query only allows SELECT and safe PRAGMA statements. Use 'db exec' for modifications."
    );
    assert!(check_read_query("SELECT 1").is_ok());
}

#[test]
fn corrupt_database_messages() {
    assert!(is_corrupt_database_error_message("Error: Database disk image is malformed"));
    assert!(is_corrupt_database_error_message("FILE IS NOT A DATABASE"));
    assert!(is_corrupt_database_error_message("the database is malformed here"));
    assert!(!is_corrupt_database_error_message("database is locked"));
}

#[test]
fn values_are_shown() {
    assert_eq!(format_value(&SqlValue::Null), "NULL");
    assert_eq!(format_value(&SqlValue::Integer(-42)), "-42");
    assert_eq!(format_value(&SqlValue::Text("hi".to_string())), "hi");
    assert_eq!(format_value(&SqlValue::Real("1.5".to_string())), "1.5");
    assert_eq!(format_value(&SqlValue::Blob), "[BLOB]");
    assert_eq!(i64_string(i64::MIN), i64::MIN.to_string());
    assert_eq!(i64_string(0), "0");
}

#[test]
fn tables_are_formatted() {
    let headers = vec!["id".to_string(), "name".to_string()];
    let rows = vec![
        vec!["1".to_string(), "alpha".to_string()],
        vec!["22".to_string(), "b".to_string()],
    ];
    assert_eq!(
        format_table(&headers, &rows),
        "id  name   \n-----------\n1   alpha  \n22  b      \n"
    );
    assert_eq!(format_table(&headers, &vec![]), "(no rows)\n");
}

#[test]
fn tables_are_described() {
    let cols = vec![
        ("id".to_string(), "INTEGER".to_string(), true, true),
        ("name".to_string(), "TEXT".to_string(), false, false),
    ];
    assert_eq!(
        describe_table("users", &cols).unwrap(),
        "Table: users\nColumns:\n  - id: INTEGER [PRIMARY KEY, NOT NULL]\n  - name: TEXT\n"
    );
    assert_eq!(describe_table("nope", &vec![]).unwrap_err().message, "Table 'nope' not found");
}

#[test]
fn accepted_statements_read_only() {
    for sql in ["select 1", " PRAGMA index_list(x)", "Pragma Table_List"] {
        assert!(is_read_only_query(sql));
        let upper = sql.trim().to_uppercase();
        assert!(upper.starts_with("SELECT") || upper.starts_with("PRAGMA"));
    }
    for sql in ["INSERT INTO x VALUES (1)", "UPDATE x SET a=1", "CREATE TABLE y(a)", "PRAGMA writable_schema=1"] {
        assert!(!is_read_only_query(sql));
    }
}

#[test]
fn accepted_upper_checks_the_text_as_given() {
    assert!(is_accepted_upper("SELECT 1"));
    assert!(is_accepted_upper("PRAGMA TABLE_INFO(x)"));
    assert!(is_accepted_upper("PRAGMA FOREIGN_KEY_LIST(x)"));
    assert!(!is_accepted_upper("select 1"));
    assert!(!is_accepted_upper(" SELECT 1"));
    assert!(!is_accepted_upper("PRAGMA WRITABLE_SCHEMA=1"));
    assert!(!is_accepted_upper(""));
}

#[test]
fn corruption_phrases_are_matched_in_lower_case() {
    assert!(names_corruption_lower("error: database disk image is malformed"));
    assert!(names_corruption_lower("file is not a database"));
    assert!(names_corruption_lower("the database is malformed here"));
    assert!(!names_corruption_lower("FILE IS NOT A DATABASE"));
    assert!(!names_corruption_lower("database is locked"));
}

#[test]
fn case_is_folded_before_the_checks() {
    assert!(is_read_only_query("  select * from t"));
    assert!(is_corrupt_database_error_message("FILE IS NOT A DATABASE"));
}
