use q_distributed_db_client::data_client::{QueryResult, Row};
use q_distributed_db_client::result::{ColumnMetadata, DataType};

#[derive(Debug, Clone, PartialEq)]
enum Value {
    Int(i64),
    Float(f64),
    String(String),
}

fn create_test_columns() -> Vec<ColumnMetadata> {
    vec![
        ColumnMetadata {
            name: "id".to_string(),
            data_type: DataType::Int,
            nullable: false,
            ordinal: 0,
        },
        ColumnMetadata {
            name: "name".to_string(),
            data_type: DataType::String,
            nullable: true,
            ordinal: 1,
        },
        ColumnMetadata {
            name: "score".to_string(),
            data_type: DataType::Float,
            nullable: true,
            ordinal: 2,
        },
    ]
}

fn alice() -> Vec<Value> {
    vec![
        Value::Int(1),
        Value::String("Alice".to_string()),
        Value::Float(95.5),
    ]
}

fn bob() -> Vec<Value> {
    vec![
        Value::Int(2),
        Value::String("Bob".to_string()),
        Value::Float(87.3),
    ]
}

#[test]
fn test_data_type_equality() {
    assert_eq!(DataType::Int, DataType::Int);
    assert_eq!(DataType::String, DataType::String);
    assert_ne!(DataType::Int, DataType::Float);
}

#[test]
fn test_column_metadata_creation() {
    let col = ColumnMetadata {
        name: "id".to_string(),
        data_type: DataType::Int,
        nullable: false,
        ordinal: 0,
    };
    assert_eq!(col.name, "id");
    assert_eq!(col.data_type, DataType::Int);
    assert!(!col.nullable);
    assert_eq!(col.ordinal, 0);
}

#[test]
fn result_test_row_creation() {
    let row = Row::new(alice());
    assert_eq!(row.len(), 3);
    assert!(!row.is_empty());
}

#[test]
fn test_row_get_by_index() {
    let row = Row::new(alice());

    assert_eq!(row.get(0).unwrap(), &Value::Int(1));
    assert_eq!(row.get(1).unwrap(), &Value::String("Alice".to_string()));
    assert_eq!(row.get(2).unwrap(), &Value::Float(95.5));
    assert!(row.get(3).is_none());
}

#[test]
fn result_test_row_get_by_name() {
    let columns = create_test_columns();
    let row = Row::new(alice());

    assert_eq!(row.get_by_name("id", &columns).unwrap(), &Value::Int(1));
    assert_eq!(
        row.get_by_name("name", &columns).unwrap(),
        &Value::String("Alice".to_string())
    );
    assert_eq!(row.get_by_name("score", &columns).unwrap(), &Value::Float(95.5));
    assert!(row.get_by_name("nonexistent", &columns).is_none());
}

#[test]
fn result_test_row_empty() {
    let row: Row<Value> = Row::new(vec![]);
    assert_eq!(row.len(), 0);
    assert!(row.is_empty());
}

#[test]
fn result_test_query_result_creation() {
    let columns = create_test_columns();
    let rows = vec![Row::new(alice()), Row::new(bob())];

    let result = QueryResult::new(columns, rows);
    assert_eq!(result.len(), 2);
    assert!(!result.is_empty());
    assert_eq!(result.columns.len(), 3);
}

#[test]
fn test_query_result_from_raw() {
    let columns = create_test_columns();
    let value_rows = vec![alice(), bob()];

    let result = QueryResult::from_raw(columns, value_rows);
    assert_eq!(result.len(), 2);
    assert_eq!(result.columns.len(), 3);
}

#[test]
fn test_query_result_empty() {
    let result: QueryResult<Value> = QueryResult::new(vec![], vec![]);
    assert_eq!(result.len(), 0);
    assert!(result.is_empty());
}

#[test]
fn test_query_result_iter() {
    let columns = create_test_columns();
    let rows = vec![Row::new(alice()), Row::new(bob())];

    let result = QueryResult::new(columns, rows);
    let mut iter = result.rows.iter();
    assert!(iter.next().is_some());
    assert!(iter.next().is_some());
    assert!(iter.next().is_none());
}
