//! Queries: which rows of which entity to load, built step by step.
use vstd::prelude::*;

pub mod edges;
pub mod ent;
pub mod loader;
pub mod predicate;
pub mod projection;

use crate::field::EntField;
use crate::query::edges::EntWithEdges;
use crate::query::projection::EntFieldProjection;
use crate::statement::{JoinDef, SelectSpec, SqlExpr};
use crate::Ent;

pub use sea_query::Order;

verus! {

#[verifier::external_type_specification]
#[verifier::external_body]
pub struct ExSqlxError(sqlx::Error);

/// Why loading entities failed.
pub enum EntLoadError {
    /// The database refused the query or the connection failed.
    DatabaseError(sqlx::Error),
    InvalidPrivacyPolicy,
}

/// Why loading exactly one entity failed.
pub enum EntLoadOnlyError {
    LoadError(EntLoadError),
    /// The query matched no entity that the privacy policy lets through.
    NoResults,
    /// The query matched more than one such entity.
    TooManyResults,
}

/// A query that loads values of type `TOut` (entities, entities with joined
/// entities, or the values of one field). Filters are joined by `AND`.
pub struct EntQuery<TOut> {
    pub filters: Vec<SqlExpr>,
    pub joins: Vec<JoinDef>,
    pub limit: Option<usize>,
    /// The column to order by (of the query's own table), and the direction.
    pub order: Option<(&'static str, sea_query::Order)>,
    pub marker: core::marker::PhantomData<TOut>,
    /// The table in `FROM` when it is not the table of the query's own
    /// entity: after a query with joins was cast down to a joined entity,
    /// the rows still come from the table the joins start from.
    pub from: Option<&'static str>,
}

/// The entity whose table a query reads, for each kind of output.
pub trait EntTarget {
    type Target: Ent;
}

impl<TEnt: Ent> EntTarget for TEnt {
    type Target = TEnt;
}

impl<TEnt: Ent, TEdges> EntTarget for EntWithEdges<TEnt, TEdges> {
    type Target = TEnt;
}

impl<TEnt: Ent, TEdges> EntTarget for (TEnt, TEdges) {
    type Target = TEnt;
}

impl<TField: EntField> EntTarget for EntFieldProjection<TField> {
    type Target = TField::Ent;
}

/// `usize` to `u64`, which loses nothing on the platforms Verus admits.
pub open spec fn spec_limit_u64(limit: Option<usize>) -> Option<u64> {
    match limit {
        Some(l) => Some(l as u64),
        None => None,
    }
}

impl<TOut> EntQuery<TOut> {
    /// Whether the query restricts its rows: it has filters, a limit or joins.
    pub open spec fn spec_is_constrained(&self) -> bool {
        self.filters@.len() > 0 || self.limit is Some || self.joins@.len() > 0
    }

    /// The table in `FROM` for a query whose own entity's table is `table`.
    pub open spec fn spec_from_table(self, table: &'static str) -> &'static str {
        match self.from {
            Some(t) => t,
            None => table,
        }
    }

    /// The `SELECT` statement of this query, whose own entity's table is
    /// `table`, selecting `column` (`None`: all columns): it reads `table`,
    /// or the table the joins start from after a cast; the order column is
    /// taken in `table`.
    pub open spec fn spec_select_on(
        self,
        table: &'static str,
        column: Option<(&'static str, &'static str)>,
    ) -> SelectSpec {
        SelectSpec {
            table: self.spec_from_table(table),
            column,
            joins: self.joins,
            filters: self.filters,
            limit: spec_limit_u64(self.limit),
            offset: None,
            order: match self.order {
                Some((c, o)) => Some((table, c, o)),
                None => None,
            },
        }
    }

    /// Whether `self` and `other` have the same filters, joins, limit, order
    /// and `FROM` table.
    pub open spec fn spec_same_parts<TOther>(self, other: EntQuery<TOther>) -> bool {
        &&& self.filters == other.filters
        &&& self.joins == other.joins
        &&& self.limit == other.limit
        &&& self.order == other.order
        &&& self.from == other.from
    }

    /// Limits the number of entities loaded; replaces any earlier limit.
    pub fn limit(self, limit: usize) -> (r: Self)
        ensures
            r.limit == Some(limit),
            r.filters == self.filters,
            r.joins == self.joins,
            r.order == self.order,
            r.from == self.from,
    {
        EntQuery {
            filters: self.filters,
            joins: self.joins,
            limit: Some(limit),
            order: self.order,
            marker: core::marker::PhantomData,
            from: self.from,
        }
    }

    /// Add a raw filter expression to the query - this is used internally for
    /// things like filtering by primary key, but can also be used for more
    /// complex queries that aren't directly supported by the other query
    /// methods.
    pub fn where_expr(self, expr: SqlExpr) -> (r: Self)
        ensures
            r.filters@ == self.filters@.push(expr),
            r.joins == self.joins,
            r.limit == self.limit,
            r.order == self.order,
            r.from == self.from,
    {
        let mut filters = self.filters;
        filters.push(expr);
        EntQuery {
            filters,
            joins: self.joins,
            limit: self.limit,
            order: self.order,
            marker: core::marker::PhantomData,
            from: self.from,
        }
    }

    /// Whether the query has filters, a limit or joins.
    pub fn is_constrained(&self) -> (r: bool)
        ensures
            r == self.spec_is_constrained(),
    {
        self.filters.len() > 0 || self.limit.is_some() || self.joins.len() > 0
    }

    /// The `SELECT` statement of this query on `table`, selecting `column`.
    pub fn select_on(
        self,
        table: &'static str,
        column: Option<(&'static str, &'static str)>,
    ) -> (r: SelectSpec)
        ensures
            r == self.spec_select_on(table, column),
    {
        let limit = match self.limit {
            Some(l) => Some(l as u64),
            None => None,
        };
        let order = match self.order {
            Some((c, o)) => Some((table, c, o)),
            None => None,
        };
        let from = match self.from {
            Some(t) => t,
            None => table,
        };
        SelectSpec {
            table: from,
            column,
            joins: self.joins,
            filters: self.filters,
            limit,
            offset: None,
            order,
        }
    }
}

impl<TOut: EntTarget> EntQuery<TOut> {
    /// The `SELECT *` statement that runs this query on the target entity's table.
    pub open spec fn spec_to_select(self) -> SelectSpec {
        self.spec_select_on(<TOut::Target as Ent>::TABLE_NAME, None)
    }

    /// The `SELECT *` statement that runs this query on the target entity's table.
    pub fn to_select(self) -> (r: SelectSpec)
        ensures
            r == self.spec_to_select(),
    {
        self.select_on(<TOut::Target as Ent>::TABLE_NAME, None)
    }
}

/// The one entity of a load of at most two: none and more than one are errors.
pub fn only_result<T>(results: Vec<T>) -> (r: Result<T, EntLoadOnlyError>)
    ensures
        results@.len() == 0 ==> r matches Err(EntLoadOnlyError::NoResults),
        results@.len() == 1 ==> r == Ok::<T, EntLoadOnlyError>(results@[0]),
        results@.len() > 1 ==> r matches Err(EntLoadOnlyError::TooManyResults),
{
    let mut results = results;
    let n = results.len();
    if n == 0 {
        Err(EntLoadOnlyError::NoResults)
    } else if n == 1 {
        Ok(results.remove(0))
    } else {
        Err(EntLoadOnlyError::TooManyResults)
    }
}

/// The first entity of a load of at most one, if there is one.
pub fn first_result<T>(results: Vec<T>) -> (r: Option<T>)
    ensures
        results@.len() == 0 ==> r is None,
        results@.len() > 0 ==> r == Some(results@.last()),
{
    let mut results = results;
    results.pop()
}

} // verus!
