//! The statements the library sends to the database, held as plain values:
//! which table, which columns, which conditions, in which order. They are
//! rendered as SQL by sea-query (see `render`).
use vstd::prelude::*;

use crate::value::SqlValue;

verus! {

/// A condition of a `WHERE` clause. Columns are qualified by their table.
pub enum SqlExpr {
    /// `"table"."column" = value`
    Equals { table: &'static str, column: &'static str, value: SqlValue },
    /// `"table"."column" > value`
    GreaterThan { table: &'static str, column: &'static str, value: SqlValue },
    /// `NOT (inner)`
    Not(Box<SqlExpr>),
    /// `left AND right`
    And(Box<SqlExpr>, Box<SqlExpr>),
    /// `"table"."column" IN (values...)`
    InValues { table: &'static str, column: &'static str, values: Vec<SqlValue> },
    /// `"table"."column" IN (SELECT ...)`
    InSubquery { table: &'static str, column: &'static str, subquery: Box<SelectSpec> },
}

/// `INNER JOIN "table" ON "left_table"."left_col" = "right_table"."right_col"`
pub struct JoinDef {
    pub table: &'static str,
    pub left_table: &'static str,
    pub left_col: &'static str,
    pub right_table: &'static str,
    pub right_col: &'static str,
}

/// A `SELECT` statement.
pub struct SelectSpec {
    /// The table in `FROM`.
    pub table: &'static str,
    /// The one selected column, `(table, column)`; `None` selects `*`.
    pub column: Option<(&'static str, &'static str)>,
    pub joins: Vec<JoinDef>,
    /// Conditions joined by `AND`, in this order.
    pub filters: Vec<SqlExpr>,
    pub limit: Option<u64>,
    pub offset: Option<u64>,
    /// `ORDER BY "table"."column" direction`
    pub order: Option<(&'static str, &'static str, sea_query::Order)>,
}

/// An `UPDATE` statement: `UPDATE "table" SET column = value, ... WHERE condition`.
pub struct UpdateSpec {
    pub table: &'static str,
    /// The assignments, in this order.
    pub values: Vec<(&'static str, SqlValue)>,
    pub condition: SqlExpr,
}

/// An `INSERT` statement that returns the inserted row:
/// `INSERT INTO "table" (columns...) VALUES (values...) RETURNING *`.
pub struct InsertSpec {
    pub table: &'static str,
    /// The columns with their values, in this order.
    pub values: Vec<(&'static str, SqlValue)>,
}

/// A `DELETE` statement: `DELETE FROM "table" WHERE condition`.
pub struct DeleteSpec {
    pub table: &'static str,
    pub condition: SqlExpr,
}

/// Whether a row satisfies the condition `e`, for conditions made of
/// equalities joined by `AND` and `NOT` (the forms a primary-key condition
/// takes); `row(table, column)` is the row's value in that column. Other
/// forms of condition are not given a meaning here.
pub open spec fn holds_on(e: SqlExpr, row: spec_fn(&'static str, &'static str) -> SqlValue) -> bool
    decreases e,
{
    match e {
        SqlExpr::Equals { table, column, value } => row(table, column) == value,
        SqlExpr::And(left, right) => holds_on(*left, row) && holds_on(*right, row),
        SqlExpr::Not(inner) => !holds_on(*inner, row),
        _ => false,
    }
}

} // verus!
