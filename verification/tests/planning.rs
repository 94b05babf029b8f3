//! Tests of the schema inference and statement planning, on plain values.
use kingler::error::DbError;
use kingler::relation::{create_relationship_sql, parse_relation_kind, RelationKind};
use kingler::strutil::{ascii_lower, ascii_upper, i64_to_string, u64_to_string};
use kingler::value::{Record, Value};
use kingler::Kingler;

fn record_abc() -> Record {
    let mut r = Record::new();
    r.push_field("a".to_string(), Value::Text("x".to_string()));
    r.push_field("b".to_string(), Value::Integer(1));
    r.push_field("c".to_string(), Value::Boolean(true));
    r
}

#[test]
fn generate_columns_field_order() {
    let cols = Kingler::generate_columns(&record_abc());
    assert_eq!(
        cols,
        vec![
            ("a".to_string(), "TEXT".to_string()),
            ("b".to_string(), "INTEGER".to_string()),
            ("c".to_string(), "BOOLEAN".to_string()),
        ]
    );
}

#[test]
fn generate_columns_id_leads() {
    let mut r = Record::new();
    r.push_field("a".to_string(), Value::Text("x".to_string()));
    r.push_field("id".to_string(), Value::Null);
    r.push_field("c".to_string(), Value::Boolean(false));
    let cols = Kingler::generate_columns(&r);
    assert_eq!(
        cols,
        vec![
            (
                "id".to_string(),
                "INTEGER PRIMARY KEY AUTOINCREMENT".to_string()
            ),
            ("a".to_string(), "TEXT".to_string()),
            ("c".to_string(), "BOOLEAN".to_string()),
        ]
    );
}

#[test]
fn generate_columns_real_and_null() {
    let mut r = Record::new();
    r.push_field("weight".to_string(), Value::Real("3.5".to_string()));
    r.push_field("note".to_string(), Value::Null);
    let cols = Kingler::generate_columns(&r);
    assert_eq!(
        cols,
        vec![
            ("weight".to_string(), "REAL".to_string()),
            ("note".to_string(), "TEXT".to_string()),
        ]
    );
}

#[test]
fn format_columns_joins_name_and_type() {
    let formatted = Kingler::format_columns(vec![
        ("name".to_string(), "TEXT".to_string()),
        ("age".to_string(), "INTEGER".to_string()),
    ]);
    assert_eq!(
        formatted,
        vec!["name TEXT".to_string(), "age INTEGER".to_string()]
    );
}

#[test]
fn create_table_sql_exact_text() {
    let k = Kingler::new("sqlite".to_string(), ":memory:".to_string());
    let mut r = Record::new();
    r.push_field("id".to_string(), Value::Null);
    r.push_field("name".to_string(), Value::Text(String::new()));
    r.push_field("age".to_string(), Value::Integer(0));
    let sql = k.create_table_sql("Client", &r).unwrap();
    assert_eq!(
        sql,
        "CREATE TABLE IF NOT EXISTS Client (id INTEGER PRIMARY KEY AUTOINCREMENT, name TEXT, age INTEGER)"
    );
}

#[test]
fn insert_statement_null_id_is_omitted() {
    let k = Kingler::new("sqlite".to_string(), ":memory:".to_string());
    let mut r = Record::new();
    r.push_field("id".to_string(), Value::Null);
    r.push_field("name".to_string(), Value::Text("John Doe".to_string()));
    r.push_field("age".to_string(), Value::Integer(25));
    let st = k.insert_statement("Client", &r).unwrap();
    assert_eq!(st.sql, "INSERT INTO Client (name, age) VALUES (?, ?)");
    assert_eq!(st.params, vec!["John Doe".to_string(), "25".to_string()]);
}

#[test]
fn insert_statement_present_id_is_kept() {
    let k = Kingler::new("sqlite".to_string(), ":memory:".to_string());
    let mut r = Record::new();
    r.push_field("id".to_string(), Value::Integer(5));
    r.push_field("name".to_string(), Value::Text("Jane".to_string()));
    let st = k.insert_statement("Client", &r).unwrap();
    assert_eq!(st.sql, "INSERT INTO Client (id, name) VALUES (?, ?)");
    assert_eq!(st.params, vec!["5".to_string(), "Jane".to_string()]);
}

#[test]
fn mysql_backend_is_unsupported() {
    let k = Kingler::new("mysql".to_string(), "db".to_string());
    assert_eq!(
        k.create_table_sql("Client", &record_abc()),
        Err(DbError::UnsupportedBackend)
    );
    assert!(matches!(
        k.insert_statement("Client", &record_abc()),
        Err(DbError::UnsupportedBackend)
    ));
}

#[test]
fn unknown_backend_is_unsupported() {
    let k = Kingler::new("postgres".to_string(), "db".to_string());
    assert_eq!(
        k.create_table_sql("Client", &record_abc()),
        Err(DbError::UnsupportedBackend)
    );
}

#[test]
fn relation_kind_parses_case_insensitively() {
    assert_eq!(
        parse_relation_kind("many_to_many"),
        Some(RelationKind::ManyToMany)
    );
    assert_eq!(
        parse_relation_kind("One_To_Many"),
        Some(RelationKind::OneToMany)
    );
    assert_eq!(
        parse_relation_kind("ONE_TO_ONE"),
        Some(RelationKind::OneToOne)
    );
    assert_eq!(parse_relation_kind("BOGUS"), None);
}

#[test]
fn many_to_many_statement_text() {
    let sql = create_relationship_sql("A", "B", "id", "id", "MANY_TO_MANY").unwrap();
    assert_eq!(
        sql,
        "CREATE TABLE IF NOT EXISTS a_b (a_ref INTEGER REFERENCES A(id), b_ref INTEGER REFERENCES B(id))"
    );
}

#[test]
fn one_to_many_statement_text() {
    let sql =
        create_relationship_sql("Department", "Employee", "id", "id", "ONE_TO_MANY").unwrap();
    assert_eq!(
        sql,
        "ALTER TABLE Employee ADD COLUMN department_ref INTEGER REFERENCES Department(id)"
    );
}

#[test]
fn one_to_one_statement_text() {
    let sql = create_relationship_sql("User", "Profile", "id", "id", "ONE_TO_ONE").unwrap();
    assert_eq!(
        sql,
        "ALTER TABLE User ADD COLUMN profile_ref INTEGER UNIQUE REFERENCES Profile(id)"
    );
}

#[test]
fn bogus_relation_is_rejected() {
    assert_eq!(
        create_relationship_sql("A", "B", "id", "id", "BOGUS"),
        Err(DbError::UnsupportedRelation)
    );
}

#[test]
fn value_sql_texts() {
    assert_eq!(Value::Null.to_sql_text(), "NULL");
    assert_eq!(Value::Integer(0).to_sql_text(), "0");
    assert_eq!(Value::Integer(-123).to_sql_text(), "-123");
    assert_eq!(
        Value::Integer(i64::MIN).to_sql_text(),
        "-9223372036854775808"
    );
    assert_eq!(Value::Integer(i64::MAX).to_sql_text(), "9223372036854775807");
    assert_eq!(Value::Boolean(true).to_sql_text(), "true");
    assert_eq!(Value::Boolean(false).to_sql_text(), "false");
    assert_eq!(Value::Real("3.5".to_string()).to_sql_text(), "3.5");
    assert_eq!(Value::Text("O'Brien".to_string()).to_sql_text(), "O'Brien");
}

#[test]
fn decimal_rendering() {
    assert_eq!(u64_to_string(0), "0");
    assert_eq!(u64_to_string(10), "10");
    assert_eq!(u64_to_string(18446744073709551615), "18446744073709551615");
    assert_eq!(i64_to_string(-1), "-1");
    assert_eq!(i64_to_string(1000000), "1000000");
}

#[test]
fn ascii_case_mapping() {
    assert_eq!(ascii_lower("TableName"), "tablename");
    assert_eq!(ascii_upper("one_to_one"), "ONE_TO_ONE");
    assert_eq!(ascii_lower("a_b2"), "a_b2");
}

#[test]
fn kingler_remembers_kind_and_uri() {
    let k = Kingler::new("sqlite".to_string(), "my.db".to_string());
    assert_eq!(k.database(), "sqlite");
    assert_eq!(k.uri(), "my.db");
}
