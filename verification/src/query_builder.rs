//! The parts that a statement is built from.

use crate::error::DatabaseError;
use crate::text::{decimal_text, push_decimal};
use vstd::prelude::*;

verus! {

/// Type of SQL query.
#[derive(Debug, Clone, Copy, PartialEq, Eq, Structural)]
pub enum QueryType {
    /// SELECT query.
    Select,
    /// INSERT query.
    Insert,
    /// UPDATE query.
    Update,
    /// DELETE query.
    Delete,
}

/// Logical operator for combining conditions.
#[derive(Debug, Clone, Copy, PartialEq, Eq, Structural)]
pub enum LogicalOperator {
    /// No operator: the condition is the first.
    First,
    /// AND operator.
    And,
    /// OR operator.
    Or,
}

/// A condition in a WHERE clause.
#[derive(Debug, Clone)]
pub struct Condition {
    /// The condition clause (e.g., "age > ?").
    pub clause: String,
    /// The logical operator connecting this condition to the previous one.
    pub operator: LogicalOperator,
}

/// Sort direction for ORDER BY clause.
#[derive(Debug, Clone, Copy, PartialEq, Eq, Structural)]
pub enum OrderDirection {
    /// Ascending order.
    Asc,
    /// Descending order.
    Desc,
}

/// An ORDER BY clause.
#[derive(Debug, Clone)]
pub struct OrderBy {
    /// Column name.
    pub column: String,
    /// Sort direction.
    pub direction: OrderDirection,
}

/// A statement under construction, as a mathematical value. `V` is the
/// type of a database value; the builder carries values and never looks
/// inside.
pub struct QueryView<V> {
    /// Type of the statement.
    pub query_type: QueryType,
    /// Table name.
    pub table: Option<Seq<char>>,
    /// Column names (for SELECT or INSERT).
    pub columns: Seq<Seq<char>>,
    /// WHERE conditions: each a clause and the operator before it.
    pub conditions: Seq<(Seq<char>, LogicalOperator)>,
    /// Values of the WHERE conditions.
    pub params: Seq<V>,
    /// Rows of values for INSERT.
    pub values: Seq<Seq<V>>,
    /// UPDATE assignments: column and value.
    pub updates: Seq<(Seq<char>, V)>,
    /// ORDER BY clauses: column and direction.
    pub order_by: Seq<(Seq<char>, OrderDirection)>,
    /// LIMIT clause.
    pub limit: Option<u64>,
    /// OFFSET clause.
    pub offset: Option<u64>,
}

/// The parts, with the separator between each two of them.
pub open spec fn joined(parts: Seq<Seq<char>>, separator: Seq<char>) -> Seq<char>
    decreases parts.len(),
{
    if parts.len() == 0 {
        Seq::empty()
    } else if parts.len() == 1 {
        parts[0]
    } else {
        joined(parts.drop_last(), separator) + separator + parts.last()
    }
}

/// The conditions in a row: each but the first behind its operator.
pub open spec fn conditions_text(conditions: Seq<(Seq<char>, LogicalOperator)>) -> Seq<char>
    decreases conditions.len(),
{
    if conditions.len() == 0 {
        Seq::empty()
    } else if conditions.len() == 1 {
        conditions[0].0
    } else {
        conditions_text(conditions.drop_last()) + match conditions.last().1 {
            LogicalOperator::And => " AND "@,
            LogicalOperator::Or => " OR "@,
            LogicalOperator::First => Seq::empty(),
        } + conditions.last().0
    }
}

/// The WHERE clause: nothing where there is no condition.
pub open spec fn where_text(conditions: Seq<(Seq<char>, LogicalOperator)>) -> Seq<char> {
    if conditions.len() == 0 {
        Seq::empty()
    } else {
        " WHERE "@ + conditions_text(conditions)
    }
}

/// One sort key: the column and its direction.
pub open spec fn order_key_text(key: (Seq<char>, OrderDirection)) -> Seq<char> {
    key.0 + match key.1 {
        OrderDirection::Asc => " ASC"@,
        OrderDirection::Desc => " DESC"@,
    }
}

/// The sort keys, with a comma between each two.
pub open spec fn order_keys_text(order_by: Seq<(Seq<char>, OrderDirection)>) -> Seq<char>
    decreases order_by.len(),
{
    if order_by.len() == 0 {
        Seq::empty()
    } else if order_by.len() == 1 {
        order_key_text(order_by[0])
    } else {
        order_keys_text(order_by.drop_last()) + ", "@ + order_key_text(order_by.last())
    }
}

/// The assignments of an UPDATE, each as `column = ?`, with a comma between
/// each two.
pub open spec fn assignments_text<V>(updates: Seq<(Seq<char>, V)>) -> Seq<char>
    decreases updates.len(),
{
    if updates.len() == 0 {
        Seq::empty()
    } else if updates.len() == 1 {
        updates[0].0 + " = ?"@
    } else {
        assignments_text(updates.drop_last()) + ", "@ + updates.last().0 + " = ?"@
    }
}

/// So many placeholders, with a comma between each two.
pub open spec fn placeholders_text(count: nat) -> Seq<char>
    decreases count,
{
    if count == 0 {
        Seq::empty()
    } else if count == 1 {
        "?"@
    } else {
        placeholders_text((count - 1) as nat) + ", ?"@
    }
}

/// The values of the assignments, in order.
pub open spec fn assigned_values<V>(updates: Seq<(Seq<char>, V)>) -> Seq<V> {
    Seq::new(updates.len(), |i: int| updates[i].1)
}

/// The values of all rows, row after row.
pub open spec fn flattened<V>(rows: Seq<Seq<V>>) -> Seq<V>
    decreases rows.len(),
{
    if rows.len() == 0 {
        Seq::empty()
    } else {
        flattened(rows.drop_last()) + rows.last()
    }
}

impl<V> QueryView<V> {
    /// A statement of the given type with nothing set but, perhaps, its
    /// table and columns.
    pub open spec fn blank(query_type: QueryType, table: Option<Seq<char>>, columns: Seq<Seq<char>>) -> QueryView<V> {
        QueryView {
            query_type,
            table,
            columns,
            conditions: Seq::empty(),
            params: Seq::empty(),
            values: Seq::empty(),
            updates: Seq::empty(),
            order_by: Seq::empty(),
            limit: None,
            offset: None,
        }
    }

    /// The statement with one more condition and its value.
    pub open spec fn with_condition(self, clause: Seq<char>, operator: LogicalOperator, value: V) -> QueryView<V> {
        QueryView {
            conditions: self.conditions.push((clause, operator)),
            params: self.params.push(value),
            ..self
        }
    }

    /// Why the statement cannot be built, if it cannot: a SELECT without a
    /// table, an INSERT without a table or without columns and values, an
    /// UPDATE without a table or without assignments, a DELETE without a
    /// table.
    pub open spec fn defect(self) -> Option<Seq<char>> {
        match self.query_type {
            QueryType::Select => if self.table is None {
                Some("SELECT requires FROM clause"@)
            } else {
                None
            },
            QueryType::Insert => if self.table is None {
                Some("INSERT requires table name"@)
            } else if self.columns.len() == 0 || self.values.len() == 0 {
                Some("INSERT requires columns and values"@)
            } else {
                None
            },
            QueryType::Update => if self.table is None {
                Some("UPDATE requires table name"@)
            } else if self.updates.len() == 0 {
                Some("UPDATE requires SET clause"@)
            } else {
                None
            },
            QueryType::Delete => if self.table is None {
                Some("DELETE requires table name"@)
            } else {
                None
            },
        }
    }

    /// The text of the LIMIT and OFFSET clauses.
    pub open spec fn window_text(self) -> Seq<char> {
        (match self.limit {
            Some(limit) => " LIMIT "@ + decimal_text(limit as nat),
            None => Seq::empty(),
        }) + (match self.offset {
            Some(offset) => " OFFSET "@ + decimal_text(offset as nat),
            None => Seq::empty(),
        })
    }

    /// The SQL text of a statement without defect. Every value is a
    /// placeholder in it.
    pub open spec fn sql(self) -> Seq<char>
        recommends
            self.defect() is None,
    {
        let table = self.table.unwrap();
        match self.query_type {
            QueryType::Select => "SELECT "@ + (if self.columns.len() == 0 {
                "*"@
            } else {
                joined(self.columns, ", "@)
            }) + " FROM "@ + table + where_text(self.conditions) + (if self.order_by.len() == 0 {
                Seq::empty()
            } else {
                " ORDER BY "@ + order_keys_text(self.order_by)
            }) + self.window_text(),
            QueryType::Insert => "INSERT INTO "@ + table + " ("@ + joined(self.columns, ", "@)
                + ") VALUES ("@ + placeholders_text(self.columns.len()) + ")"@,
            QueryType::Update => "UPDATE "@ + table + " SET "@ + assignments_text(self.updates)
                + where_text(self.conditions),
            QueryType::Delete => "DELETE FROM "@ + table + where_text(self.conditions),
        }
    }

    /// The values that go with the SQL text, in the order of their
    /// placeholders: for an UPDATE the assigned values, then those of the
    /// conditions; for an INSERT the values of the rows; otherwise those of
    /// the conditions.
    pub open spec fn parameters(self) -> Seq<V> {
        match self.query_type {
            QueryType::Update => assigned_values(self.updates) + self.params,
            QueryType::Insert => flattened(self.values),
            _ => self.params,
        }
    }
}

/// The views of a list of conditions.
pub open spec fn condition_views(conditions: Seq<Condition>) -> Seq<(Seq<char>, LogicalOperator)> {
    Seq::new(conditions.len(), |i: int| (conditions[i].clause@, conditions[i].operator))
}

/// The views of a list of sort keys.
pub open spec fn order_views(order_by: Seq<OrderBy>) -> Seq<(Seq<char>, OrderDirection)> {
    Seq::new(order_by.len(), |i: int| (order_by[i].column@, order_by[i].direction))
}

/// The views of a list of assignments.
pub open spec fn update_views<V>(updates: Seq<(String, V)>) -> Seq<(Seq<char>, V)> {
    Seq::new(updates.len(), |i: int| (updates[i].0@, updates[i].1))
}

/// The views of a list of rows.
pub open spec fn row_views<V>(rows: Seq<Vec<V>>) -> Seq<Seq<V>> {
    Seq::new(rows.len(), |i: int| rows[i]@)
}

/// The views of a list of string slices.
pub open spec fn slice_views(strings: Seq<&str>) -> Seq<Seq<char>> {
    Seq::new(strings.len(), |i: int| strings[i]@)
}

/// Builds SQL statements with a fluent interface. Values never enter the
/// SQL text: each stands there as a placeholder and travels beside it.
#[derive(Debug)]
pub struct QueryBuilder<V> {
    query_type: QueryType,
    table: Option<String>,
    columns: Vec<String>,
    conditions: Vec<Condition>,
    params: Vec<V>,
    values: Vec<Vec<V>>,
    updates: Vec<(String, V)>,
    order_by: Vec<OrderBy>,
    limit: Option<u64>,
    offset: Option<u64>,
}

impl<V> View for QueryBuilder<V> {
    type V = QueryView<V>;

    closed spec fn view(&self) -> QueryView<V> {
        QueryView {
            query_type: self.query_type,
            table: match self.table {
                Some(table) => Some(table@),
                None => None,
            },
            columns: self.columns.deep_view(),
            conditions: condition_views(self.conditions@),
            params: self.params@,
            values: row_views(self.values@),
            updates: update_views(self.updates@),
            order_by: order_views(self.order_by@),
            limit: self.limit,
            offset: self.offset,
        }
    }
}

fn owned_strings(strings: &[&str]) -> (owned: Vec<String>)
    ensures
        owned.deep_view() == slice_views(strings@),
{
    let mut owned: Vec<String> = Vec::new();
    let mut index: usize = 0;
    while index < strings.len()
        invariant
            index <= strings@.len(),
            owned@.len() == index,
            forall|i: int| 0 <= i < index ==> owned@[i]@ == strings@[i]@,
        decreases strings@.len() - index,
    {
        owned.push(String::from_str(strings[index]));
        index = index + 1;
    }
    assert(owned.deep_view() =~= slice_views(strings@));
    owned
}

fn builder_error(details: &str) -> (error: DatabaseError)
    ensures
        error matches DatabaseError::InternalError { component, details: d } && component@
            == "QueryBuilder"@ && d@ == details@,
{
    DatabaseError::InternalError {
        component: String::from_str("QueryBuilder"),
        details: String::from_str(details),
    }
}

/// Whether `error` is an error of the builder with the given details.
pub open spec fn is_builder_error(error: DatabaseError, text: Seq<char>) -> bool {
    error matches DatabaseError::InternalError { component, details } && component@
        == "QueryBuilder"@ && details@ == text
}

/// The elements of `items`, last first.
fn reversed<T>(items: Vec<T>) -> (result: Vec<T>)
    ensures
        result@ == items@.reverse(),
{
    let mut pending = items;
    let mut result: Vec<T> = Vec::new();
    let ghost total = pending@.len();
    while pending.len() > 0
        invariant
            total == items@.len(),
            pending@.len() + result@.len() == total,
            pending@ == items@.take(pending@.len() as int),
            forall|i: int| 0 <= i < result@.len() ==> result@[i] == items@[total - 1 - i],
        decreases pending@.len(),
    {
        let item = pending.pop().unwrap();
        result.push(item);
    }
    assert(result@ =~= items@.reverse());
    result
}

impl<V> QueryBuilder<V> {
    fn blank(query_type: QueryType, table: Option<String>, columns: Vec<String>) -> (builder: Self)
        ensures
            builder@ == QueryView::<V>::blank(
                query_type,
                match table {
                    Some(table) => Some(table@),
                    None => None,
                },
                columns.deep_view(),
            ),
    {
        let builder = QueryBuilder {
            query_type,
            table,
            columns,
            conditions: Vec::new(),
            params: Vec::new(),
            values: Vec::new(),
            updates: Vec::new(),
            order_by: Vec::new(),
            limit: None,
            offset: None,
        };
        assert(condition_views(builder.conditions@) =~= Seq::empty());
        assert(row_views(builder.values@) =~= Seq::empty());
        assert(update_views(builder.updates@) =~= Seq::empty());
        assert(order_views(builder.order_by@) =~= Seq::empty());
        builder
    }

    /// Starts a SELECT of the given columns; of all columns where none is
    /// given.
    pub fn select(columns: &[&str]) -> (builder: Self)
        ensures
            builder@ == QueryView::<V>::blank(QueryType::Select, None, slice_views(columns@)),
    {
        QueryBuilder::blank(QueryType::Select, None, owned_strings(columns))
    }

    /// Starts an INSERT into the given table.
    pub fn insert_into(table: &str) -> (builder: Self)
        ensures
            builder@ == QueryView::<V>::blank(QueryType::Insert, Some(table@), Seq::empty()),
    {
        let columns: Vec<String> = Vec::new();
        assert(columns.deep_view() =~= Seq::empty());
        QueryBuilder::blank(QueryType::Insert, Some(String::from_str(table)), columns)
    }

    /// Starts an UPDATE of the given table.
    pub fn update(table: &str) -> (builder: Self)
        ensures
            builder@ == QueryView::<V>::blank(QueryType::Update, Some(table@), Seq::empty()),
    {
        let columns: Vec<String> = Vec::new();
        assert(columns.deep_view() =~= Seq::empty());
        QueryBuilder::blank(QueryType::Update, Some(String::from_str(table)), columns)
    }

    /// Starts a DELETE from the given table.
    pub fn delete_from(table: &str) -> (builder: Self)
        ensures
            builder@ == QueryView::<V>::blank(QueryType::Delete, Some(table@), Seq::empty()),
    {
        let columns: Vec<String> = Vec::new();
        assert(columns.deep_view() =~= Seq::empty());
        QueryBuilder::blank(QueryType::Delete, Some(String::from_str(table)), columns)
    }

    /// Sets the table.
    pub fn from(self, table: &str) -> (builder: Self)
        ensures
            builder@ == (QueryView { table: Some(table@), ..self@ }),
    {
        let mut builder = self;
        builder.table = Some(String::from_str(table));
        builder
    }

    fn push_condition(self, condition: &str, operator: LogicalOperator, value: V) -> (builder: Self)
        ensures
            builder@ == self@.with_condition(condition@, operator, value),
    {
        let mut builder = self;
        builder.conditions.push(Condition { clause: String::from_str(condition), operator });
        builder.params.push(value);
        assert(condition_views(builder.conditions@) =~= condition_views(self.conditions@).push(
            (condition@, operator),
        ));
        builder
    }

    /// Adds a condition with its value. The first condition of a statement
    /// stands alone; a later one is joined with AND.
    pub fn where_clause(self, condition: &str, value: V) -> (builder: Self)
        ensures
            builder@ == self@.with_condition(
                condition@,
                if self@.conditions.len() == 0 {
                    LogicalOperator::First
                } else {
                    LogicalOperator::And
                },
                value,
            ),
    {
        let operator = if self.conditions.len() == 0 {
            LogicalOperator::First
        } else {
            LogicalOperator::And
        };
        self.push_condition(condition, operator, value)
    }

    /// Adds a condition joined with AND.
    pub fn and(self, condition: &str, value: V) -> (builder: Self)
        ensures
            builder@ == self@.with_condition(condition@, LogicalOperator::And, value),
    {
        self.push_condition(condition, LogicalOperator::And, value)
    }

    /// Adds a condition joined with OR.
    pub fn or(self, condition: &str, value: V) -> (builder: Self)
        ensures
            builder@ == self@.with_condition(condition@, LogicalOperator::Or, value),
    {
        self.push_condition(condition, LogicalOperator::Or, value)
    }

    /// Sets the columns.
    pub fn columns(self, columns: &[&str]) -> (builder: Self)
        ensures
            builder@ == (QueryView { columns: slice_views(columns@), ..self@ }),
    {
        let mut builder = self;
        builder.columns = owned_strings(columns);
        builder
    }

    /// Adds a row of values for an INSERT.
    pub fn values(self, values: Vec<V>) -> (builder: Self)
        ensures
            builder@ == (QueryView { values: self@.values.push(values@), ..self@ }),
    {
        let mut builder = self;
        builder.values.push(values);
        assert(row_views(builder.values@) =~= row_views(self.values@).push(values@));
        builder
    }

    /// Adds an assignment for an UPDATE.
    pub fn set(self, column: &str, value: V) -> (builder: Self)
        ensures
            builder@ == (QueryView { updates: self@.updates.push((column@, value)), ..self@ }),
    {
        let mut builder = self;
        builder.updates.push((String::from_str(column), value));
        assert(update_views(builder.updates@) =~= update_views(self.updates@).push(
            (column@, value),
        ));
        builder
    }

    /// Adds a sort key.
    pub fn order_by(self, column: &str, direction: OrderDirection) -> (builder: Self)
        ensures
            builder@ == (QueryView {
                order_by: self@.order_by.push((column@, direction)),
                ..self@
            }),
    {
        let mut builder = self;
        builder.order_by.push(OrderBy { column: String::from_str(column), direction });
        assert(order_views(builder.order_by@) =~= order_views(self.order_by@).push(
            (column@, direction),
        ));
        builder
    }

    /// Sets the LIMIT.
    pub fn limit(self, limit: u64) -> (builder: Self)
        ensures
            builder@ == (QueryView { limit: Some(limit), ..self@ }),
    {
        let mut builder = self;
        builder.limit = Some(limit);
        builder
    }

    /// Sets the OFFSET.
    pub fn offset(self, offset: u64) -> (builder: Self)
        ensures
            builder@ == (QueryView { offset: Some(offset), ..self@ }),
    {
        let mut builder = self;
        builder.offset = Some(offset);
        builder
    }

    fn push_joined(sql: &mut String, parts: &Vec<String>)
        ensures
            final(sql)@ == old(sql)@ + joined(parts.deep_view(), ", "@),
    {
        let ghost views = parts.deep_view();
        let mut index: usize = 0;
        while index < parts.len()
            invariant
                index <= parts@.len(),
                views == parts.deep_view(),
                views.len() == parts@.len(),
                sql@ == old(sql)@ + joined(views.take(index as int), ", "@),
            decreases parts@.len() - index,
        {
            assert(views.take(index + 1).drop_last() =~= views.take(index as int));
            assert(views.take(index + 1).last() == parts@[index as int]@);
            if index > 0 {
                sql.append(", ");
            }
            sql.append(parts[index].as_str());
            assert(sql@ =~= old(sql)@ + joined(views.take(index + 1), ", "@));
            index = index + 1;
        }
        assert(views.take(index as int) =~= views);
    }

    fn push_where(&self, sql: &mut String)
        ensures
            final(sql)@ == old(sql)@ + where_text(self@.conditions),
    {
        let ghost views = condition_views(self.conditions@);
        if self.conditions.len() == 0 {
            assert(sql@ =~= old(sql)@ + where_text(views));
            return ;
        }
        sql.append(" WHERE ");
        let mut index: usize = 0;
        while index < self.conditions.len()
            invariant
                index <= self.conditions@.len(),
                views == condition_views(self.conditions@),
                sql@ == old(sql)@ + " WHERE "@ + conditions_text(views.take(index as int)),
            decreases self.conditions@.len() - index,
        {
            assert(views.take(index + 1).drop_last() =~= views.take(index as int));
            assert(views.take(index + 1).last() == views[index as int]);
            let condition = &self.conditions[index];
            if index > 0 {
                match condition.operator {
                    LogicalOperator::And => sql.append(" AND "),
                    LogicalOperator::Or => sql.append(" OR "),
                    LogicalOperator::First => {},
                }
            }
            sql.append(condition.clause.as_str());
            assert(sql@ =~= old(sql)@ + " WHERE "@ + conditions_text(views.take(index + 1)));
            index = index + 1;
        }
        assert(views.take(index as int) =~= views);
        assert(sql@ =~= old(sql)@ + where_text(views));
    }

    fn push_order(&self, sql: &mut String)
        ensures
            final(sql)@ == old(sql)@ + (if self@.order_by.len() == 0 {
                Seq::empty()
            } else {
                " ORDER BY "@ + order_keys_text(self@.order_by)
            }),
    {
        let ghost views = order_views(self.order_by@);
        if self.order_by.len() == 0 {
            assert(sql@ =~= old(sql)@ + Seq::<char>::empty());
            return ;
        }
        sql.append(" ORDER BY ");
        let mut index: usize = 0;
        while index < self.order_by.len()
            invariant
                index <= self.order_by@.len(),
                views == order_views(self.order_by@),
                sql@ == old(sql)@ + " ORDER BY "@ + order_keys_text(views.take(index as int)),
            decreases self.order_by@.len() - index,
        {
            assert(views.take(index + 1).drop_last() =~= views.take(index as int));
            assert(views.take(index + 1).last() == views[index as int]);
            let key = &self.order_by[index];
            if index > 0 {
                sql.append(", ");
            }
            sql.append(key.column.as_str());
            match key.direction {
                OrderDirection::Asc => sql.append(" ASC"),
                OrderDirection::Desc => sql.append(" DESC"),
            }
            assert(sql@ =~= old(sql)@ + " ORDER BY "@ + order_keys_text(views.take(index + 1)));
            index = index + 1;
        }
        assert(views.take(index as int) =~= views);
    }

    fn push_window(&self, sql: &mut String)
        ensures
            final(sql)@ == old(sql)@ + self@.window_text(),
    {
        match self.limit {
            Some(limit) => {
                sql.append(" LIMIT ");
                push_decimal(sql, limit);
            },
            None => {},
        }
        match self.offset {
            Some(offset) => {
                sql.append(" OFFSET ");
                push_decimal(sql, offset);
            },
            None => {},
        }
        assert(sql@ =~= old(sql)@ + self@.window_text());
    }

    fn push_assignments(&self, sql: &mut String)
        ensures
            final(sql)@ == old(sql)@ + assignments_text(self@.updates),
    {
        let ghost views = update_views(self.updates@);
        let mut index: usize = 0;
        while index < self.updates.len()
            invariant
                index <= self.updates@.len(),
                views == update_views(self.updates@),
                sql@ == old(sql)@ + assignments_text(views.take(index as int)),
            decreases self.updates@.len() - index,
        {
            assert(views.take(index + 1).drop_last() =~= views.take(index as int));
            assert(views.take(index + 1).last() == views[index as int]);
            if index > 0 {
                sql.append(", ");
            }
            sql.append(self.updates[index].0.as_str());
            sql.append(" = ?");
            assert(sql@ =~= old(sql)@ + assignments_text(views.take(index + 1)));
            index = index + 1;
        }
        assert(views.take(index as int) =~= views);
    }

    fn push_placeholders(sql: &mut String, count: usize)
        ensures
            final(sql)@ == old(sql)@ + placeholders_text(count as nat),
    {
        let mut index: usize = 0;
        while index < count
            invariant
                index <= count,
                sql@ == old(sql)@ + placeholders_text(index as nat),
            decreases count - index,
        {
            if index > 0 {
                sql.append(", ?");
            } else {
                sql.append("?");
            }
            assert(sql@ =~= old(sql)@ + placeholders_text((index + 1) as nat));
            index = index + 1;
        }
    }

    /// Writes the SQL text of the statement, or tells why it cannot be
    /// built.
    pub fn build_sql(&self) -> (sql: Result<String, DatabaseError>)
        ensures
            match self@.defect() {
                Some(text) => sql matches Err(error) && is_builder_error(error, text),
                None => sql matches Ok(sql) && sql@ == self@.sql(),
            },
    {
        match self.query_type {
            QueryType::Select => self.build_select(),
            QueryType::Insert => self.build_insert(),
            QueryType::Update => self.build_update(),
            QueryType::Delete => self.build_delete(),
        }
    }

    fn build_select(&self) -> (sql: Result<String, DatabaseError>)
        requires
            self@.query_type == QueryType::Select,
        ensures
            match self@.defect() {
                Some(text) => sql matches Err(error) && is_builder_error(error, text),
                None => sql matches Ok(sql) && sql@ == self@.sql(),
            },
    {
        let table = match &self.table {
            Some(table) => table,
            None => {
                return Err(builder_error("SELECT requires FROM clause"));
            },
        };
        let mut sql = String::from_str("SELECT ");
        assert(self.columns.deep_view().len() == self.columns@.len());
        if self.columns.len() == 0 {
            sql.append("*");
        } else {
            Self::push_joined(&mut sql, &self.columns);
        }
        sql.append(" FROM ");
        sql.append(table.as_str());
        self.push_where(&mut sql);
        self.push_order(&mut sql);
        self.push_window(&mut sql);
        assert(sql@ =~= self@.sql());
        Ok(sql)
    }

    fn build_insert(&self) -> (sql: Result<String, DatabaseError>)
        requires
            self@.query_type == QueryType::Insert,
        ensures
            match self@.defect() {
                Some(text) => sql matches Err(error) && is_builder_error(error, text),
                None => sql matches Ok(sql) && sql@ == self@.sql(),
            },
    {
        let table = match &self.table {
            Some(table) => table,
            None => {
                return Err(builder_error("INSERT requires table name"));
            },
        };
        assert(self.columns.deep_view().len() == self.columns@.len());
        if self.columns.len() == 0 || self.values.len() == 0 {
            return Err(builder_error("INSERT requires columns and values"));
        }
        let mut sql = String::from_str("INSERT INTO ");
        sql.append(table.as_str());
        sql.append(" (");
        Self::push_joined(&mut sql, &self.columns);
        sql.append(") VALUES (");
        Self::push_placeholders(&mut sql, self.columns.len());
        sql.append(")");
        assert(sql@ =~= self@.sql());
        Ok(sql)
    }

    fn build_update(&self) -> (sql: Result<String, DatabaseError>)
        requires
            self@.query_type == QueryType::Update,
        ensures
            match self@.defect() {
                Some(text) => sql matches Err(error) && is_builder_error(error, text),
                None => sql matches Ok(sql) && sql@ == self@.sql(),
            },
    {
        let table = match &self.table {
            Some(table) => table,
            None => {
                return Err(builder_error("UPDATE requires table name"));
            },
        };
        if self.updates.len() == 0 {
            return Err(builder_error("UPDATE requires SET clause"));
        }
        let mut sql = String::from_str("UPDATE ");
        sql.append(table.as_str());
        sql.append(" SET ");
        self.push_assignments(&mut sql);
        self.push_where(&mut sql);
        assert(sql@ =~= self@.sql());
        Ok(sql)
    }

    fn build_delete(&self) -> (sql: Result<String, DatabaseError>)
        requires
            self@.query_type == QueryType::Delete,
        ensures
            match self@.defect() {
                Some(text) => sql matches Err(error) && is_builder_error(error, text),
                None => sql matches Ok(sql) && sql@ == self@.sql(),
            },
    {
        let table = match &self.table {
            Some(table) => table,
            None => {
                return Err(builder_error("DELETE requires table name"));
            },
        };
        let mut sql = String::from_str("DELETE FROM ");
        sql.append(table.as_str());
        self.push_where(&mut sql);
        assert(sql@ =~= self@.sql());
        Ok(sql)
    }

    /// Builds the statement: its SQL text and, beside it, the values in
    /// the order of their placeholders.
    pub fn build(self) -> (built: Result<(String, Vec<V>), DatabaseError>)
        ensures
            match self@.defect() {
                Some(text) => built matches Err(error) && is_builder_error(error, text),
                None => built matches Ok((sql, parameters)) && sql@ == self@.sql() && parameters@
                    == self@.parameters(),
            },
    {
        let sql = match self.build_sql() {
            Ok(sql) => sql,
            Err(error) => {
                return Err(error);
            },
        };
        let query_type = self.query_type;
        let mut params = self.params;
        let mut parameters: Vec<V> = Vec::new();
        match query_type {
            QueryType::Update => {
                let ghost views = update_views(self.updates@);
                let mut pending = reversed(self.updates);
                let ghost total = pending@.len();
                while pending.len() > 0
                    invariant
                        total == self.updates@.len(),
                        pending@.len() + parameters@.len() == total,
                        forall|i: int|
                            0 <= i < pending@.len() ==> pending@[i] == self.updates@[total - 1
                                - i],
                        forall|i: int|
                            0 <= i < parameters@.len() ==> parameters@[i] == self.updates@[i].1,
                    decreases pending@.len(),
                {
                    let assignment = pending.pop().unwrap();
                    parameters.push(assignment.1);
                }
                assert(parameters@ =~= assigned_values(update_views(self.updates@)));
                parameters.append(&mut params);
            },
            QueryType::Insert => {
                let mut pending = reversed(self.values);
                let ghost total = pending@.len();
                let ghost rows = row_views(self.values@);
                while pending.len() > 0
                    invariant
                        total == self.values@.len(),
                        rows == row_views(self.values@),
                        pending@.len() <= total,
                        forall|i: int|
                            0 <= i < pending@.len() ==> pending@[i] == self.values@[total - 1 - i],
                        parameters@ == flattened(rows.take(total - pending@.len())),
                    decreases pending@.len(),
                {
                    let ghost done = total - pending@.len();
                    let mut row = pending.pop().unwrap();
                    assert(rows.take(done + 1).drop_last() =~= rows.take(done));
                    assert(rows.take(done + 1).last() == row@);
                    parameters.append(&mut row);
                }
                assert(rows.take(total as int) =~= rows);
            },
            _ => {
                parameters.append(&mut params);
                assert(parameters@ =~= self@.parameters());
            },
        }
        Ok((sql, parameters))
    }
}

} // verus!
