use q_distributed_db_client::error::DatabaseError;
use q_distributed_db_client::query_builder::{OrderDirection, QueryBuilder};

#[derive(Debug, Clone, PartialEq)]
enum Value {
    Int(i64),
    String(String),
}

#[test]
fn test_select_basic() {
    let (sql, params) = QueryBuilder::<Value>::select(&["id", "name", "email"])
        .from("users")
        .build()
        .unwrap();

    assert_eq!(sql, "SELECT id, name, email FROM users");
    assert!(params.is_empty());
}

#[test]
fn test_select_all_columns() {
    let (sql, params) = QueryBuilder::<Value>::select(&[])
        .from("users")
        .build()
        .unwrap();

    assert_eq!(sql, "SELECT * FROM users");
    assert!(params.is_empty());
}

#[test]
fn test_select_with_where() {
    let (sql, params) = QueryBuilder::<Value>::select(&["*"])
        .from("users")
        .where_clause("age > ?", Value::Int(18))
        .build()
        .unwrap();

    assert_eq!(sql, "SELECT * FROM users WHERE age > ?");
    assert_eq!(params.len(), 1);
    assert_eq!(params[0], Value::Int(18));
}

#[test]
fn test_select_with_and() {
    let (sql, params) = QueryBuilder::<Value>::select(&["*"])
        .from("users")
        .where_clause("age > ?", Value::Int(18))
        .and("status = ?", Value::String("active".to_string()))
        .build()
        .unwrap();

    assert_eq!(sql, "SELECT * FROM users WHERE age > ? AND status = ?");
    assert_eq!(params.len(), 2);
    assert_eq!(params[0], Value::Int(18));
    assert_eq!(params[1], Value::String("active".to_string()));
}

#[test]
fn test_select_with_or() {
    let (sql, params) = QueryBuilder::<Value>::select(&["*"])
        .from("users")
        .where_clause("age > ?", Value::Int(18))
        .or("status = ?", Value::String("admin".to_string()))
        .build()
        .unwrap();

    assert_eq!(sql, "SELECT * FROM users WHERE age > ? OR status = ?");
    assert_eq!(params.len(), 2);
}

#[test]
fn test_select_with_order_by() {
    let (sql, _) = QueryBuilder::<Value>::select(&["*"])
        .from("users")
        .order_by("name", OrderDirection::Asc)
        .build()
        .unwrap();

    assert_eq!(sql, "SELECT * FROM users ORDER BY name ASC");
}

#[test]
fn test_select_with_limit() {
    let (sql, _) = QueryBuilder::<Value>::select(&["*"])
        .from("users")
        .limit(10)
        .build()
        .unwrap();

    assert_eq!(sql, "SELECT * FROM users LIMIT 10");
}

#[test]
fn test_select_with_offset() {
    let (sql, _) = QueryBuilder::<Value>::select(&["*"])
        .from("users")
        .limit(10)
        .offset(20)
        .build()
        .unwrap();

    assert_eq!(sql, "SELECT * FROM users LIMIT 10 OFFSET 20");
}

#[test]
fn test_insert_basic() {
    let (sql, params) = QueryBuilder::<Value>::insert_into("users")
        .columns(&["name", "email"])
        .values(vec![
            Value::String("Alice".to_string()),
            Value::String("alice@example.com".to_string()),
        ])
        .build()
        .unwrap();

    assert_eq!(sql, "INSERT INTO users (name, email) VALUES (?, ?)");
    assert_eq!(params.len(), 2);
    assert_eq!(params[0], Value::String("Alice".to_string()));
    assert_eq!(params[1], Value::String("alice@example.com".to_string()));
}

#[test]
fn test_update_basic() {
    let (sql, params) = QueryBuilder::<Value>::update("users")
        .set("status", Value::String("inactive".to_string()))
        .where_clause("id = ?", Value::Int(123))
        .build()
        .unwrap();

    assert_eq!(sql, "UPDATE users SET status = ? WHERE id = ?");
    assert_eq!(params.len(), 2);
    assert_eq!(params[0], Value::String("inactive".to_string()));
    assert_eq!(params[1], Value::Int(123));
}

#[test]
fn test_delete_basic() {
    let (sql, params) = QueryBuilder::<Value>::delete_from("users")
        .where_clause("status = ?", Value::String("deleted".to_string()))
        .build()
        .unwrap();

    assert_eq!(sql, "DELETE FROM users WHERE status = ?");
    assert_eq!(params.len(), 1);
    assert_eq!(params[0], Value::String("deleted".to_string()));
}

#[test]
fn test_select_missing_from() {
    let result = QueryBuilder::<Value>::select(&["*"]).build();
    assert!(result.is_err());
}

#[test]
fn test_insert_missing_columns() {
    let result = QueryBuilder::<Value>::insert_into("users").build();
    assert!(result.is_err());
}

#[test]
fn test_update_missing_set() {
    let result = QueryBuilder::<Value>::update("users").build();
    assert!(result.is_err());
}

#[test]
fn test_query_builder_integration() {
    // Test that QueryBuilder can be built and produces valid SQL
    let (sql, params) = QueryBuilder::<Value>::select(&["id", "name"])
        .from("users")
        .where_clause("age > ?", Value::Int(18))
        .order_by("name", OrderDirection::Asc)
        .limit(10)
        .build()
        .unwrap();
    
    assert_eq!(sql, "SELECT id, name FROM users WHERE age > ? ORDER BY name ASC LIMIT 10");
    assert_eq!(params.len(), 1);
    assert_eq!(params[0], Value::Int(18));
}

#[test]
fn test_builder_defects_name_what_is_missing() {
    let cases: Vec<(QueryBuilder<Value>, &str)> = vec![
        (QueryBuilder::select(&["*"]), "SELECT requires FROM clause"),
        (QueryBuilder::select(&[]).where_clause("a = ?", Value::Int(1)), "SELECT requires FROM clause"),
        (QueryBuilder::insert_into("t"), "INSERT requires columns and values"),
        (QueryBuilder::insert_into("t").columns(&["a"]), "INSERT requires columns and values"),
        (QueryBuilder::insert_into("t").values(vec![Value::Int(1)]), "INSERT requires columns and values"),
        (QueryBuilder::update("t"), "UPDATE requires SET clause"),
    ];
    for (builder, expected) in cases {
        match builder.build() {
            Err(DatabaseError::InternalError { component, details }) => {
                assert_eq!(component, "QueryBuilder");
                assert_eq!(details, expected);
            }
            other => panic!("unexpected: {:?}", other),
        }
    }
}

#[test]
fn test_select_with_everything() {
    let (sql, params) = QueryBuilder::<Value>::select(&["id", "name"])
        .from("users")
        .where_clause("age > ?", Value::Int(18))
        .or("vip = ?", Value::Int(1))
        .and("status = ?", Value::String("active".to_string()))
        .where_clause("city = ?", Value::String("Oslo".to_string()))
        .order_by("name", OrderDirection::Asc)
        .order_by("id", OrderDirection::Desc)
        .limit(0)
        .offset(u64::MAX)
        .build()
        .unwrap();
    assert_eq!(
        sql,
        "SELECT id, name FROM users WHERE age > ? OR vip = ? AND status = ? AND city = ? \
         ORDER BY name ASC, id DESC LIMIT 0 OFFSET 18446744073709551615"
    );
    assert_eq!(
        params,
        vec![
            Value::Int(18),
            Value::Int(1),
            Value::String("active".to_string()),
            Value::String("Oslo".to_string()),
        ]
    );
}

#[test]
fn test_first_condition_stands_alone_whatever_its_operator() {
    let (sql, _) = QueryBuilder::<Value>::delete_from("t")
        .or("a = ?", Value::Int(1))
        .and("b = ?", Value::Int(2))
        .build()
        .unwrap();
    assert_eq!(sql, "DELETE FROM t WHERE a = ? AND b = ?");
    let (sql, params) = QueryBuilder::<Value>::delete_from("t").build().unwrap();
    assert_eq!(sql, "DELETE FROM t");
    assert!(params.is_empty());
}

#[test]
fn test_update_parameters_put_assignments_first() {
    let (sql, params) = QueryBuilder::<Value>::update("users")
        .where_clause("id = ?", Value::Int(1))
        .set("a", Value::Int(2))
        .set("b", Value::Int(3))
        .or("id = ?", Value::Int(4))
        .build()
        .unwrap();
    assert_eq!(sql, "UPDATE users SET a = ?, b = ? WHERE id = ? OR id = ?");
    assert_eq!(params, vec![Value::Int(2), Value::Int(3), Value::Int(1), Value::Int(4)]);
}

#[test]
fn test_insert_takes_every_row_and_ignores_conditions() {
    let (sql, params) = QueryBuilder::<Value>::insert_into("t")
        .columns(&["a", "b", "c"])
        .values(vec![Value::Int(1), Value::Int(2), Value::Int(3)])
        .values(vec![Value::Int(4), Value::Int(5), Value::Int(6)])
        .where_clause("x = ?", Value::Int(9))
        .build()
        .unwrap();
    assert_eq!(sql, "INSERT INTO t (a, b, c) VALUES (?, ?, ?)");
    assert_eq!(
        params,
        vec![Value::Int(1), Value::Int(2), Value::Int(3), Value::Int(4), Value::Int(5), Value::Int(6)]
    );
    let sql = QueryBuilder::<Value>::insert_into("t")
        .columns(&["only"])
        .values(vec![])
        .build_sql()
        .unwrap();
    assert_eq!(sql, "INSERT INTO t (only) VALUES (?)");
}

#[test]
fn test_from_and_columns_replace_what_was_set() {
    let (sql, _) = QueryBuilder::<Value>::select(&["a"])
        .from("one")
        .columns(&["b", "c"])
        .from("two")
        .build()
        .unwrap();
    assert_eq!(sql, "SELECT b, c FROM two");
}
