use sql_gateway::{escape_string_literal, is_valid_identifier, quote_identifier, DbType};

#[test]
fn test_valid_identifier() {
    assert!(is_valid_identifier("users"));
    assert!(is_valid_identifier("user_accounts"));
    assert!(is_valid_identifier("table_123"));
    assert!(is_valid_identifier("my-table"));

    // Invalid cases
    assert!(!is_valid_identifier(""));
    assert!(!is_valid_identifier("123table")); // starts with number
    assert!(!is_valid_identifier("table; DROP TABLE users--"));
    assert!(!is_valid_identifier("table' OR '1'='1"));
}

#[test]
fn test_quote_identifier() {
    let name = "my_table";
    assert_eq!(quote_identifier(name, &DbType::Postgres), "\"my_table\"");
    assert_eq!(quote_identifier(name, &DbType::Mysql), "`my_table`");

    // Test escaping
    let evil_name = "table\"name";
    assert_eq!(quote_identifier(evil_name, &DbType::Postgres), "\"table\"\"name\"");
}

#[test]
fn test_escape_string_literal() {
    let value = "O'Reilly";
    assert_eq!(escape_string_literal(value, &DbType::Postgres), "'O''Reilly'");
    assert_eq!(escape_string_literal(value, &DbType::Mysql), "'O''Reilly'");
}

#[test]
fn identifier_length_limit_is_sixty_four_characters() {
    let ok = "a".repeat(64);
    let too_long = "a".repeat(65);
    assert!(is_valid_identifier(&ok));
    assert!(!is_valid_identifier(&too_long));
}

#[test]
fn identifier_length_counts_characters_not_bytes() {
    // 64 two-byte letters: 128 bytes, but 64 characters.
    let accented = "é".repeat(64);
    assert!(is_valid_identifier(&accented));
    assert!(!is_valid_identifier(&"é".repeat(65)));
}

#[test]
fn identifier_rejects_spaces_quotes_and_leading_digits() {
    assert!(!is_valid_identifier("a b"));
    assert!(!is_valid_identifier("a\"b"));
    assert!(!is_valid_identifier("a`b"));
    assert!(!is_valid_identifier("9lives"));
    assert!(!is_valid_identifier("٣abc")); // a non-ASCII digit first
    assert!(is_valid_identifier("_private"));
    assert!(is_valid_identifier("-dash"));
    assert!(is_valid_identifier("naïve"));
}

#[test]
fn sqlite_quotes_like_postgres() {
    assert_eq!(quote_identifier("my_table", &DbType::Sqlite), "\"my_table\"");
    assert_eq!(quote_identifier("table\"name", &DbType::Sqlite), "\"table\"\"name\"");
    assert_eq!(
        quote_identifier("a\"\"b", &DbType::Sqlite),
        quote_identifier("a\"\"b", &DbType::Postgres)
    );
}

#[test]
fn mysql_doubles_backticks() {
    assert_eq!(quote_identifier("we`ird", &DbType::Mysql), "`we``ird`");
    // A double quote is left alone by MySQL quoting.
    assert_eq!(quote_identifier("a\"b", &DbType::Mysql), "`a\"b`");
}

#[test]
fn escaping_is_the_same_for_sqlite_and_not_idempotent() {
    assert_eq!(escape_string_literal("O'Reilly", &DbType::Sqlite), "'O''Reilly'");
    let once = escape_string_literal("O'Reilly", &DbType::Postgres);
    let twice = escape_string_literal(&once, &DbType::Postgres);
    assert_eq!(twice, "'''O''''Reilly'''");
    assert_ne!(once, twice);
    assert_eq!(escape_string_literal("", &DbType::Postgres), "''");
}
