//! Rendering statements as sea-query statements, and from there as
//! PostgreSQL. The statements of `crate::statement` decide what is asked;
//! sea-query decides how it is written.
//!
//! sea-query's values are opaque here. Each sea-query function called below
//! has a name for what it returns (or for the statement it leaves), applied
//! to what it is given; the names are not described, since sea-query builds
//! its values by code that a few lines cannot state, from its arguments
//! alone. The rendering functions state which calls build their result, in
//! which order and from which parts of the statement: `spec_sea_expr`,
//! `spec_sea_select` and the like. Which SQL text a statement ends up as is
//! not stated.
use vstd::prelude::*;

use sea_query::ExprTrait;

use crate::creator::EntCreatorError;
use crate::statement::{DeleteSpec, InsertSpec, JoinDef, SelectSpec, SqlExpr, UpdateSpec};
use crate::value::SqlValue;

verus! {

#[verifier::external_type_specification]
#[verifier::external_body]
pub struct ExSelectStatement(sea_query::SelectStatement);

#[verifier::external_type_specification]
#[verifier::external_body]
pub struct ExUpdateStatement(sea_query::UpdateStatement);

#[verifier::external_type_specification]
#[verifier::external_body]
pub struct ExInsertStatement(sea_query::InsertStatement);

#[verifier::external_type_specification]
#[verifier::external_body]
pub struct ExDeleteStatement(sea_query::DeleteStatement);

#[verifier::external_type_specification]
#[verifier::external_body]
pub struct ExExpr(sea_query::Expr);

#[verifier::external_type_specification]
#[verifier::external_body]
pub struct ExOrder(sea_query::Order);

// Names for what the sea-query functions called below return.

/// `Expr::val` of an `Option<bool>`.
pub uninterp spec fn sea_bool_val(v: Option<bool>) -> sea_query::Expr;

/// `Expr::val` of an `Option<i32>`.
pub uninterp spec fn sea_int_val(v: Option<i32>) -> sea_query::Expr;

/// `Expr::val` of an `Option<i64>`.
pub uninterp spec fn sea_big_int_val(v: Option<i64>) -> sea_query::Expr;

/// `Expr::val` of an `Option<String>`, the text taken by its characters.
pub uninterp spec fn sea_string_val(v: Option<Seq<char>>) -> sea_query::Expr;

/// `Expr::val` of an `Option<uuid::Uuid>`.
pub uninterp spec fn sea_uuid_val(v: Option<uuid::Uuid>) -> sea_query::Expr;

/// `Expr::val` of an `Option<chrono::NaiveDateTime>`.
pub uninterp spec fn sea_naive_date_time_val(v: Option<chrono::NaiveDateTime>) -> sea_query::Expr;

/// `Expr::col` of `(table, column)`.
pub uninterp spec fn sea_column_of(table: Seq<char>, column: Seq<char>) -> sea_query::Expr;

/// `ExprTrait::eq`.
pub uninterp spec fn sea_eq_of(left: sea_query::Expr, right: sea_query::Expr) -> sea_query::Expr;

/// `ExprTrait::gt`.
pub uninterp spec fn sea_gt_of(left: sea_query::Expr, right: sea_query::Expr) -> sea_query::Expr;

/// `ExprTrait::not`.
pub uninterp spec fn sea_not_of(inner: sea_query::Expr) -> sea_query::Expr;

/// `ExprTrait::and`.
pub uninterp spec fn sea_and_of(left: sea_query::Expr, right: sea_query::Expr) -> sea_query::Expr;

/// `ExprTrait::is_in`.
pub uninterp spec fn sea_is_in_of(left: sea_query::Expr, values: Seq<sea_query::Expr>) -> sea_query::Expr;

/// `ExprTrait::in_subquery`.
pub uninterp spec fn sea_in_subquery_of(
    left: sea_query::Expr,
    subquery: sea_query::SelectStatement,
) -> sea_query::Expr;

/// `ExprTrait::equals` of `(table, column)`.
pub uninterp spec fn sea_equals_column_of(
    left: sea_query::Expr,
    table: Seq<char>,
    column: Seq<char>,
) -> sea_query::Expr;

/// `Query::select()` followed by `SelectStatement::from(Alias::new(table))`.
pub uninterp spec fn sea_select_from_table(table: Seq<char>) -> sea_query::SelectStatement;

/// The statement after `SelectStatement::column(Asterisk)`.
pub uninterp spec fn sea_select_all_of(s: sea_query::SelectStatement) -> sea_query::SelectStatement;

/// The statement after `SelectStatement::column((table, column))`.
pub uninterp spec fn sea_select_column_of(
    s: sea_query::SelectStatement,
    table: Seq<char>,
    column: Seq<char>,
) -> sea_query::SelectStatement;

/// The statement after `SelectStatement::join(InnerJoin, Alias::new(table), on)`.
pub uninterp spec fn sea_select_inner_join_of(
    s: sea_query::SelectStatement,
    table: Seq<char>,
    on: sea_query::Expr,
) -> sea_query::SelectStatement;

/// The statement after `SelectStatement::and_where(e)`.
pub uninterp spec fn sea_select_and_where_of(
    s: sea_query::SelectStatement,
    e: sea_query::Expr,
) -> sea_query::SelectStatement;

/// The statement after `SelectStatement::limit(limit)`.
pub uninterp spec fn sea_select_limit_of(
    s: sea_query::SelectStatement,
    limit: u64,
) -> sea_query::SelectStatement;

/// The statement after `SelectStatement::offset(offset)`.
pub uninterp spec fn sea_select_offset_of(
    s: sea_query::SelectStatement,
    offset: u64,
) -> sea_query::SelectStatement;

/// The statement after `SelectStatement::order_by((table, column), order)`.
pub uninterp spec fn sea_select_order_by_of(
    s: sea_query::SelectStatement,
    table: Seq<char>,
    column: Seq<char>,
    order: sea_query::Order,
) -> sea_query::SelectStatement;

/// `SelectStatement::to_string(PostgresQueryBuilder)`.
pub uninterp spec fn sea_select_postgres_of(s: sea_query::SelectStatement) -> Seq<char>;

/// `Query::update()` followed by `UpdateStatement::table(Alias::new(table))`.
pub uninterp spec fn sea_update_for_table(table: Seq<char>) -> sea_query::UpdateStatement;

/// The statement after `UpdateStatement::value(column, value)`.
pub uninterp spec fn sea_update_value_of(
    s: sea_query::UpdateStatement,
    column: Seq<char>,
    value: sea_query::Expr,
) -> sea_query::UpdateStatement;

/// The statement after `UpdateStatement::and_where(e)`.
pub uninterp spec fn sea_update_and_where_of(
    s: sea_query::UpdateStatement,
    e: sea_query::Expr,
) -> sea_query::UpdateStatement;

/// `Query::insert()` followed by `InsertStatement::into_table(Alias::new(table))`.
pub uninterp spec fn sea_insert_into(table: Seq<char>) -> sea_query::InsertStatement;

/// The statement after `InsertStatement::columns(columns)`.
pub uninterp spec fn sea_insert_columns_of(
    s: sea_query::InsertStatement,
    columns: Seq<Seq<char>>,
) -> sea_query::InsertStatement;

/// The number of columns an `InsertStatement` has (its `columns` field).
pub uninterp spec fn sea_insert_column_count(s: sea_query::InsertStatement) -> nat;

/// The statement after a successful `InsertStatement::values(values)`.
pub uninterp spec fn sea_insert_values_of(
    s: sea_query::InsertStatement,
    values: Seq<sea_query::Expr>,
) -> sea_query::InsertStatement;

/// The error of a refused `InsertStatement::values(values)`.
pub uninterp spec fn sea_insert_values_error(
    s: sea_query::InsertStatement,
    values: Seq<sea_query::Expr>,
) -> sea_query::error::Error;

/// The statement after `InsertStatement::returning_all()`.
pub uninterp spec fn sea_insert_returning_all_of(s: sea_query::InsertStatement) -> sea_query::InsertStatement;

/// `Query::delete()` followed by `DeleteStatement::from_table(Alias::new(table))`.
pub uninterp spec fn sea_delete_from(table: Seq<char>) -> sea_query::DeleteStatement;

/// The statement after `DeleteStatement::cond_where(e)`.
pub uninterp spec fn sea_delete_cond_where_of(
    s: sea_query::DeleteStatement,
    e: sea_query::Expr,
) -> sea_query::DeleteStatement;

/// `sea_query::Expr::val` of an `Option<bool>`: sea-query's `Value::Bool` of it, as an expression.
#[verifier::external_body]
fn sea_bool(v: Option<bool>) -> (r: sea_query::Expr)
    ensures
        r == sea_bool_val(v),
{
    sea_query::Expr::val(v)
}

/// `sea_query::Expr::val` of an `Option<i32>`: sea-query's `Value::Int` of it, as an expression.
#[verifier::external_body]
fn sea_int(v: Option<i32>) -> (r: sea_query::Expr)
    ensures
        r == sea_int_val(v),
{
    sea_query::Expr::val(v)
}

/// `sea_query::Expr::val` of an `Option<i64>`: sea-query's `Value::BigInt` of it, as an expression.
#[verifier::external_body]
fn sea_big_int(v: Option<i64>) -> (r: sea_query::Expr)
    ensures
        r == sea_big_int_val(v),
{
    sea_query::Expr::val(v)
}

/// The characters of an optional text.
pub open spec fn opt_text(v: Option<String>) -> Option<Seq<char>> {
    match v {
        Some(s) => Some(s@),
        None => None,
    }
}

/// `sea_query::Expr::val` of an `Option<String>`: sea-query's `Value::String` of it, as an expression.
#[verifier::external_body]
fn sea_string(v: Option<String>) -> (r: sea_query::Expr)
    ensures
        r == sea_string_val(opt_text(v)),
{
    sea_query::Expr::val(v)
}

/// `sea_query::Expr::val` of an `Option<uuid::Uuid>`: sea-query's `Value::Uuid` of it, as an expression.
#[verifier::external_body]
fn sea_uuid(v: Option<uuid::Uuid>) -> (r: sea_query::Expr)
    ensures
        r == sea_uuid_val(v),
{
    sea_query::Expr::val(v)
}

/// `sea_query::Expr::val` of an `Option<chrono::NaiveDateTime>`: sea-query's `Value::ChronoDateTime` of it, as an expression.
#[verifier::external_body]
fn sea_naive_date_time(v: Option<chrono::NaiveDateTime>) -> (r: sea_query::Expr)
    ensures
        r == sea_naive_date_time_val(v),
{
    sea_query::Expr::val(v)
}

/// `sea_query::Expr::col` of `(table, column)`: a qualified column.
#[verifier::external_body]
fn sea_column(table: &'static str, column: &'static str) -> (r: sea_query::Expr)
    ensures
        r == sea_column_of(table@, column@),
{
    sea_query::Expr::col((table, column))
}

/// `ExprTrait::eq`: `left = right`.
#[verifier::external_body]
fn sea_eq(left: sea_query::Expr, right: sea_query::Expr) -> (r: sea_query::Expr)
    ensures
        r == sea_eq_of(left, right),
{
    left.eq(right)
}

/// `ExprTrait::gt`: `left > right`.
#[verifier::external_body]
fn sea_gt(left: sea_query::Expr, right: sea_query::Expr) -> (r: sea_query::Expr)
    ensures
        r == sea_gt_of(left, right),
{
    left.gt(right)
}

/// `ExprTrait::not`: `NOT inner`.
#[verifier::external_body]
fn sea_not(inner: sea_query::Expr) -> (r: sea_query::Expr)
    ensures
        r == sea_not_of(inner),
{
    inner.not()
}

/// `ExprTrait::and`: `left AND right`.
#[verifier::external_body]
fn sea_and(left: sea_query::Expr, right: sea_query::Expr) -> (r: sea_query::Expr)
    ensures
        r == sea_and_of(left, right),
{
    left.and(right)
}

/// `ExprTrait::is_in`: `left IN (values)`.
#[verifier::external_body]
fn sea_is_in(left: sea_query::Expr, values: Vec<sea_query::Expr>) -> (r: sea_query::Expr)
    ensures
        r == sea_is_in_of(left, values@),
{
    left.is_in(values)
}

/// `ExprTrait::in_subquery`: `left IN (subquery)`.
#[verifier::external_body]
fn sea_in_subquery(left: sea_query::Expr, subquery: sea_query::SelectStatement) -> (r:
    sea_query::Expr)
    ensures
        r == sea_in_subquery_of(left, subquery),
{
    left.in_subquery(subquery)
}

/// `ExprTrait::equals` of `(table, column)`: `left = "table"."column"`.
#[verifier::external_body]
fn sea_equals_column(left: sea_query::Expr, table: &'static str, column: &'static str) -> (r:
    sea_query::Expr)
    ensures
        r == sea_equals_column_of(left, table@, column@),
{
    left.equals((table, column))
}

/// `Clone::clone` of an `Order` (derived: a copy of the variant and its contents).
#[verifier::external_body]
fn sea_order_clone(order: &sea_query::Order) -> (r: sea_query::Order)
    ensures
        r == *order,
{
    order.clone()
}

/// `sea_query::Query::select` then `SelectStatement::from` of
/// `Alias::new(table)`: a `SELECT` from `table`, with no column yet.
#[verifier::external_body]
fn sea_select_new(table: &'static str) -> (r: sea_query::SelectStatement)
    ensures
        r == sea_select_from_table(table@),
{
    let mut s = sea_query::Query::select();
    s.from(sea_query::Alias::new(table));
    s
}

/// `SelectStatement::column` of `sea_query::Asterisk`: select `*`.
#[verifier::external_body]
fn sea_select_all(s: &mut sea_query::SelectStatement)
    ensures
        *final(s) == sea_select_all_of(*old(s)),
{
    s.column(sea_query::Asterisk);
}

/// `SelectStatement::column` of `(table, column)`.
#[verifier::external_body]
fn sea_select_column(s: &mut sea_query::SelectStatement, table: &'static str, column: &'static str)
    ensures
        *final(s) == sea_select_column_of(*old(s), table@, column@),
{
    s.column((table, column));
}

/// `SelectStatement::join` with `JoinType::InnerJoin`, the table
/// `Alias::new(table)` and the condition `on`.
#[verifier::external_body]
fn sea_select_inner_join(s: &mut sea_query::SelectStatement, table: &'static str, on: sea_query::Expr)
    ensures
        *final(s) == sea_select_inner_join_of(*old(s), table@, on),
{
    s.join(sea_query::JoinType::InnerJoin, sea_query::Alias::new(table), on);
}

/// `SelectStatement::and_where`.
#[verifier::external_body]
fn sea_select_and_where(s: &mut sea_query::SelectStatement, e: sea_query::Expr)
    ensures
        *final(s) == sea_select_and_where_of(*old(s), e),
{
    s.and_where(e);
}

/// `SelectStatement::limit`.
#[verifier::external_body]
fn sea_select_limit(s: &mut sea_query::SelectStatement, limit: u64)
    ensures
        *final(s) == sea_select_limit_of(*old(s), limit),
{
    s.limit(limit);
}

/// `SelectStatement::offset`.
#[verifier::external_body]
fn sea_select_offset(s: &mut sea_query::SelectStatement, offset: u64)
    ensures
        *final(s) == sea_select_offset_of(*old(s), offset),
{
    s.offset(offset);
}

/// `SelectStatement::order_by` of `(table, column)`.
#[verifier::external_body]
fn sea_select_order_by(
    s: &mut sea_query::SelectStatement,
    table: &'static str,
    column: &'static str,
    order: sea_query::Order,
)
    ensures
        *final(s) == sea_select_order_by_of(*old(s), table@, column@, order),
{
    s.order_by((table, column), order);
}

/// `SelectStatement::to_string` with `PostgresQueryBuilder`: the statement's
/// SQL with its values written inline.
#[verifier::external_body]
fn sea_select_to_postgres(s: &sea_query::SelectStatement) -> (r: String)
    ensures
        r@ == sea_select_postgres_of(*s),
{
    s.to_string(sea_query::PostgresQueryBuilder)
}

/// `sea_query::Query::update` then `UpdateStatement::table` of
/// `Alias::new(table)`: an `UPDATE` of `table`, with no assignment yet.
#[verifier::external_body]
fn sea_update_new(table: &'static str) -> (r: sea_query::UpdateStatement)
    ensures
        r == sea_update_for_table(table@),
{
    let mut s = sea_query::Query::update();
    s.table(sea_query::Alias::new(table));
    s
}

/// `UpdateStatement::value`: one more `column = value` assignment.
#[verifier::external_body]
fn sea_update_value(s: &mut sea_query::UpdateStatement, column: &'static str, value: sea_query::Expr)
    ensures
        *final(s) == sea_update_value_of(*old(s), column@, value),
{
    s.value(column, value);
}

/// `UpdateStatement::and_where`.
#[verifier::external_body]
fn sea_update_and_where(s: &mut sea_query::UpdateStatement, e: sea_query::Expr)
    ensures
        *final(s) == sea_update_and_where_of(*old(s), e),
{
    s.and_where(e);
}

/// `sea_query::Query::insert` then `InsertStatement::into_table` of
/// `Alias::new(table)`: an `INSERT` into `table`, with no column yet.
#[verifier::external_body]
fn sea_insert_new(table: &'static str) -> (r: sea_query::InsertStatement)
    ensures
        r == sea_insert_into(table@),
{
    let mut s = sea_query::Query::insert();
    s.into_table(sea_query::Alias::new(table));
    s
}

/// The characters of each column name.
pub open spec fn column_names(columns: Seq<&'static str>) -> Seq<Seq<char>> {
    columns.map_values(|c: &'static str| c@)
}

/// `InsertStatement::columns`: the statement's columns become `columns`, as
/// many as there are.
#[verifier::external_body]
fn sea_insert_columns(s: &mut sea_query::InsertStatement, columns: Vec<&'static str>)
    ensures
        *final(s) == sea_insert_columns_of(*old(s), column_names(columns@)),
        sea_insert_column_count(*final(s)) == columns@.len(),
{
    s.columns(columns);
}

/// `InsertStatement::values`: one row of values. sea-query refuses a row
/// whose length differs from the number of columns, and then leaves the
/// statement as it was.
#[verifier::external_body]
fn sea_insert_values(s: &mut sea_query::InsertStatement, values: Vec<sea_query::Expr>) -> (r: Result<
    (),
    sea_query::error::Error,
>)
    ensures
        r is Ok <==> sea_insert_column_count(*old(s)) == values@.len(),
        r is Ok ==> *final(s) == sea_insert_values_of(*old(s), values@),
        r matches Err(e) ==> *final(s) == *old(s) && e == sea_insert_values_error(*old(s), values@),
{
    s.values(values).map(|_| ())
}

/// `InsertStatement::returning_all`: `RETURNING *`.
#[verifier::external_body]
fn sea_insert_returning_all(s: &mut sea_query::InsertStatement)
    ensures
        *final(s) == sea_insert_returning_all_of(*old(s)),
{
    s.returning_all();
}

/// `sea_query::Query::delete` then `DeleteStatement::from_table` of
/// `Alias::new(table)`: a `DELETE` from `table`, with no condition yet.
#[verifier::external_body]
fn sea_delete_new(table: &'static str) -> (r: sea_query::DeleteStatement)
    ensures
        r == sea_delete_from(table@),
{
    let mut s = sea_query::Query::delete();
    s.from_table(sea_query::Alias::new(table));
    s
}

/// `DeleteStatement::cond_where`.
#[verifier::external_body]
fn sea_delete_cond_where(s: &mut sea_query::DeleteStatement, e: sea_query::Expr)
    ensures
        *final(s) == sea_delete_cond_where_of(*old(s), e),
{
    s.cond_where(e);
}

// What the rendering functions build.

/// The sea-query value of `v`.
pub open spec fn spec_sea_value(v: SqlValue) -> sea_query::Expr {
    match v {
        SqlValue::Bool(b) => sea_bool_val(b),
        SqlValue::Int(i) => sea_int_val(i),
        SqlValue::BigInt(i) => sea_big_int_val(i),
        SqlValue::String(s) => sea_string_val(opt_text(s)),
        SqlValue::Uuid(u) => sea_uuid_val(u),
        SqlValue::ChronoDateTime(d) => sea_naive_date_time_val(d),
    }
}

/// The sea-query values of `values`, in order.
pub open spec fn spec_sea_values(values: Seq<SqlValue>) -> Seq<sea_query::Expr> {
    values.map_values(|v: SqlValue| spec_sea_value(v))
}

/// The sea-query expression of the condition `e`.
pub open spec fn spec_sea_expr(e: SqlExpr) -> sea_query::Expr
    decreases e, 0int,
{
    match e {
        SqlExpr::Equals { table, column, value } => sea_eq_of(
            sea_column_of(table@, column@),
            spec_sea_value(value),
        ),
        SqlExpr::GreaterThan { table, column, value } => sea_gt_of(
            sea_column_of(table@, column@),
            spec_sea_value(value),
        ),
        SqlExpr::Not(inner) => sea_not_of(spec_sea_expr(*inner)),
        SqlExpr::And(left, right) => sea_and_of(spec_sea_expr(*left), spec_sea_expr(*right)),
        SqlExpr::InValues { table, column, values } => sea_is_in_of(
            sea_column_of(table@, column@),
            spec_sea_values(values@),
        ),
        SqlExpr::InSubquery { table, column, subquery } => sea_in_subquery_of(
            sea_column_of(table@, column@),
            spec_sea_select(*subquery),
        ),
    }
}

/// The statement `st` after the first `k` joins of `joins`, each an inner
/// join on `"left_table"."left_col" = "right_table"."right_col"`.
pub open spec fn spec_select_joins(
    st: sea_query::SelectStatement,
    joins: Seq<JoinDef>,
    k: int,
) -> sea_query::SelectStatement
    decreases k,
{
    if k <= 0 || k > joins.len() {
        st
    } else {
        let j = joins[k - 1];
        sea_select_inner_join_of(
            spec_select_joins(st, joins, k - 1),
            j.table@,
            sea_equals_column_of(
                sea_column_of(j.left_table@, j.left_col@),
                j.right_table@,
                j.right_col@,
            ),
        )
    }
}

/// The `SELECT` of `s` up to its joins: `FROM`, the columns, the joins.
pub open spec fn spec_select_head(s: SelectSpec) -> sea_query::SelectStatement {
    let st = sea_select_from_table(s.table@);
    let st = match s.column {
        Some((t, c)) => sea_select_column_of(st, t@, c@),
        None => sea_select_all_of(st),
    };
    spec_select_joins(st, s.joins@, s.joins@.len() as int)
}

/// The statement `st` after the first `k` filters of `s`, each by `and_where`.
pub open spec fn spec_select_filters(
    s: SelectSpec,
    st: sea_query::SelectStatement,
    k: int,
) -> sea_query::SelectStatement
    decreases s, k,
{
    if k <= 0 || k > s.filters@.len() {
        st
    } else {
        proof {
            assert(decreases_to!(s => s.filters));
            assert(decreases_to!(s.filters => s.filters@));
            assert(decreases_to!(s.filters@ => s.filters@[k - 1]));
        }
        sea_select_and_where_of(
            spec_select_filters(s, st, k - 1),
            spec_sea_expr(s.filters@[k - 1]),
        )
    }
}

/// The statement `st` after the limit, the offset and the order of `s`.
pub open spec fn spec_select_tail(
    st: sea_query::SelectStatement,
    s: SelectSpec,
) -> sea_query::SelectStatement {
    let st = match s.limit {
        Some(l) => sea_select_limit_of(st, l),
        None => st,
    };
    let st = match s.offset {
        Some(o) => sea_select_offset_of(st, o),
        None => st,
    };
    match s.order {
        Some((t, c, o)) => sea_select_order_by_of(st, t@, c@, o),
        None => st,
    }
}

/// The sea-query statement of `s`: the columns, `FROM`, the joins, the
/// filters (each by `and_where`), the limit, the offset and the order, in
/// that order.
pub open spec fn spec_sea_select(s: SelectSpec) -> sea_query::SelectStatement
    decreases s, s.filters@.len() + 1,
{
    spec_select_tail(spec_select_filters(s, spec_select_head(s), s.filters@.len() as int), s)
}

/// The statement `st` after the first `k` assignments of `values`.
pub open spec fn spec_update_values(
    st: sea_query::UpdateStatement,
    values: Seq<(&'static str, SqlValue)>,
    k: int,
) -> sea_query::UpdateStatement
    decreases k,
{
    if k <= 0 || k > values.len() {
        st
    } else {
        sea_update_value_of(
            spec_update_values(st, values, k - 1),
            values[k - 1].0@,
            spec_sea_value(values[k - 1].1),
        )
    }
}

/// The sea-query statement of `u`: the table, the assignments in order, and
/// the condition.
pub open spec fn spec_sea_update(u: UpdateSpec) -> sea_query::UpdateStatement {
    sea_update_and_where_of(
        spec_update_values(
            sea_update_for_table(u.table@),
            u.values@,
            u.values@.len() as int,
        ),
        spec_sea_expr(u.condition),
    )
}

/// The sea-query statement of `i`: the table, the columns, the one row of
/// values, and `RETURNING *`.
pub open spec fn spec_sea_insert(i: InsertSpec) -> sea_query::InsertStatement {
    sea_insert_returning_all_of(
        sea_insert_values_of(
            sea_insert_columns_of(
                sea_insert_into(i.table@),
                i.values@.map_values(|e: (&'static str, SqlValue)| e.0@),
            ),
            i.values@.map_values(|e: (&'static str, SqlValue)| spec_sea_value(e.1)),
        ),
    )
}

/// The sea-query statement of `d`: the table and the condition.
pub open spec fn spec_sea_delete(d: DeleteSpec) -> sea_query::DeleteStatement {
    sea_delete_cond_where_of(
        sea_delete_from(d.table@),
        spec_sea_expr(d.condition),
    )
}

/// The sea-query value of `v`: the variant of the same name, with the same contents.
pub fn to_sea_value(v: &SqlValue) -> (r: sea_query::Expr)
    ensures
        r == spec_sea_value(*v),
{
    match v {
        SqlValue::Bool(b) => sea_bool(*b),
        SqlValue::Int(i) => sea_int(*i),
        SqlValue::BigInt(i) => sea_big_int(*i),
        SqlValue::String(s) => sea_string(
            match s {
                Some(t) => Some(t.clone()),
                None => None,
            },
        ),
        SqlValue::Uuid(u) => sea_uuid(*u),
        SqlValue::ChronoDateTime(d) => sea_naive_date_time(*d),
    }
}

/// The sea-query values of `values`, in order.
fn to_sea_values(values: &Vec<SqlValue>) -> (r: Vec<sea_query::Expr>)
    ensures
        r@ == spec_sea_values(values@),
{
    let mut r: Vec<sea_query::Expr> = Vec::new();
    let mut i: usize = 0;
    while i < values.len()
        invariant
            i <= values@.len(),
            r@ == spec_sea_values(values@.take(i as int)),
        decreases values@.len() - i,
    {
        r.push(to_sea_value(&values[i]));
        assert(values@.take(i as int + 1) == values@.take(i as int).push(values@[i as int]));
        i = i + 1;
    }
    assert(values@.take(i as int) == values@);
    r
}

impl SqlExpr {
    /// The sea-query expression of this condition.
    pub fn to_sea_expr(&self) -> (r: sea_query::Expr)
        ensures
            r == spec_sea_expr(*self),
        decreases self,
    {
        match self {
            SqlExpr::Equals { table, column, value } => sea_eq(
                sea_column(*table, *column),
                to_sea_value(value),
            ),
            SqlExpr::GreaterThan { table, column, value } => sea_gt(
                sea_column(*table, *column),
                to_sea_value(value),
            ),
            SqlExpr::Not(inner) => sea_not(inner.to_sea_expr()),
            SqlExpr::And(left, right) => sea_and(left.to_sea_expr(), right.to_sea_expr()),
            SqlExpr::InValues { table, column, values } => sea_is_in(
                sea_column(*table, *column),
                to_sea_values(values),
            ),
            SqlExpr::InSubquery { table, column, subquery } => sea_in_subquery(
                sea_column(*table, *column),
                subquery.to_sea_statement(),
            ),
        }
    }
}

impl SelectSpec {
    /// The sea-query statement: the columns, `FROM`, the joins, the filters
    /// (joined by `AND`), the limit, the offset and the order, in that order.
    pub fn to_sea_statement(&self) -> (r: sea_query::SelectStatement)
        ensures
            r == spec_sea_select(*self),
        decreases self,
    {
        let mut s = sea_select_new(self.table);
        match self.column {
            Some((t, c)) => sea_select_column(&mut s, t, c),
            None => sea_select_all(&mut s),
        }
        let ghost from = s;
        let mut i: usize = 0;
        while i < self.joins.len()
            invariant
                i <= self.joins@.len(),
                s == spec_select_joins(from, self.joins@, i as int),
            decreases self.joins@.len() - i,
        {
            let j = &self.joins[i];
            let on = sea_equals_column(sea_column(j.left_table, j.left_col), j.right_table, j.right_col);
            sea_select_inner_join(&mut s, j.table, on);
            i = i + 1;
        }
        assert(s == spec_select_head(*self));
        let ghost head = s;
        let mut k: usize = 0;
        while k < self.filters.len()
            invariant
                k <= self.filters@.len(),
                s == spec_select_filters(*self, head, k as int),
            decreases self.filters@.len() - k,
        {
            let e = self.filters[k].to_sea_expr();
            sea_select_and_where(&mut s, e);
            k = k + 1;
        }
        match self.limit {
            Some(l) => sea_select_limit(&mut s, l),
            None => {},
        }
        match self.offset {
            Some(o) => sea_select_offset(&mut s, o),
            None => {},
        }
        match &self.order {
            Some((t, c, o)) => {
                sea_select_order_by(&mut s, *t, *c, sea_order_clone(o));
            },
            None => {},
        }
        s
    }

    /// The statement as PostgreSQL, with its values written inline.
    pub fn to_postgres(&self) -> (r: String)
        ensures
            r@ == sea_select_postgres_of(spec_sea_select(*self)),
    {
        let s = self.to_sea_statement();
        sea_select_to_postgres(&s)
    }
}

impl UpdateSpec {
    /// The sea-query statement: the table, the assignments in order, and the condition.
    pub fn to_sea_statement(&self) -> (r: sea_query::UpdateStatement)
        ensures
            r == spec_sea_update(*self),
    {
        let mut s = sea_update_new(self.table);
        let ghost start = s;
        let mut i: usize = 0;
        while i < self.values.len()
            invariant
                i <= self.values@.len(),
                s == spec_update_values(start, self.values@, i as int),
            decreases self.values@.len() - i,
        {
            let (column, value) = &self.values[i];
            sea_update_value(&mut s, *column, to_sea_value(value));
            i = i + 1;
        }
        sea_update_and_where(&mut s, self.condition.to_sea_expr());
        s
    }
}

impl InsertSpec {
    /// The sea-query statement: the table, the columns and the one row of
    /// values in order, and `RETURNING *`. sea-query accepts it: there are as
    /// many values as columns.
    pub fn to_sea_statement(&self) -> (r: Result<sea_query::InsertStatement, EntCreatorError>)
        ensures
            r matches Ok(s) && s == spec_sea_insert(*self),
    {
        let mut s = sea_insert_new(self.table);
        let mut columns: Vec<&'static str> = Vec::new();
        let mut values: Vec<sea_query::Expr> = Vec::new();
        let mut i: usize = 0;
        while i < self.values.len()
            invariant
                i <= self.values@.len(),
                columns@ == self.values@.take(i as int).map_values(
                    |e: (&'static str, SqlValue)| e.0,
                ),
                values@ == self.values@.take(i as int).map_values(
                    |e: (&'static str, SqlValue)| spec_sea_value(e.1),
                ),
            decreases self.values@.len() - i,
        {
            let (column, value) = &self.values[i];
            columns.push(*column);
            values.push(to_sea_value(value));
            assert(self.values@.take(i as int + 1) == self.values@.take(i as int).push(
                self.values@[i as int],
            ));
            i = i + 1;
        }
        assert(self.values@.take(i as int) == self.values@);
        assert(column_names(columns@) == self.values@.map_values(
            |e: (&'static str, SqlValue)| e.0@,
        ));
        sea_insert_columns(&mut s, columns);
        match sea_insert_values(&mut s, values) {
            Ok(()) => {},
            Err(e) => {
                return Err(EntCreatorError::EntLoadError(e));
            },
        }
        sea_insert_returning_all(&mut s);
        Ok(s)
    }
}

impl DeleteSpec {
    /// The sea-query statement: the table and the condition.
    pub fn to_sea_statement(&self) -> (r: sea_query::DeleteStatement)
        ensures
            r == spec_sea_delete(*self),
    {
        let mut s = sea_delete_new(self.table);
        sea_delete_cond_where(&mut s, self.condition.to_sea_expr());
        s
    }
}

} // verus!
