//! Building queries on an entity's table.
use vstd::prelude::*;

use crate::field::EntField;
use crate::query::edges::EntWithEdges;
use crate::query::predicate::is_in::spec_projection_select;
use crate::query::predicate::{FieldPredicate, QueryPredicate};
use crate::query::projection::EntFieldProjection;
use crate::query::EntQuery;
use crate::statement::{JoinDef, SqlExpr};
use crate::{Ent, EntEdge};

verus! {

/// The `IN (SELECT ...)` condition that follows an edge: `target` must be
/// one of the values of `source` in the rows that `query` selects.
pub open spec fn spec_edge_filter<TSource: EntField, TTarget: EntField>(
    query: EntQuery<TSource::Ent>,
) -> SqlExpr {
    SqlExpr::InSubquery {
        table: <TTarget::Ent as Ent>::TABLE_NAME,
        column: TTarget::NAME,
        subquery: Box::new(
            query.spec_select_on(
                <TSource::Ent as Ent>::TABLE_NAME,
                Some((<TSource::Ent as Ent>::TABLE_NAME, TSource::NAME)),
            ),
        ),
    }
}

/// The filters of a query that follows an inbound edge to the rows of
/// `query`: none when `query` selects every row of its table (each value of
/// the edge field refers to a row of that table, so the condition would keep
/// every row), else the `IN (SELECT ...)` condition.
pub open spec fn spec_edge_filters<TSource: EntField, TTarget: EntField>(
    query: EntQuery<TSource::Ent>,
) -> Seq<SqlExpr> {
    if query.spec_is_constrained() {
        seq![spec_edge_filter::<TSource, TTarget>(query)]
    } else {
        Seq::empty()
    }
}

impl<TEnt: Ent> EntQuery<TEnt> {
    /// A query for every entity of the table.
    pub fn new() -> (r: Self)
        ensures
            r.filters@ == Seq::<SqlExpr>::empty(),
            r.joins@ == Seq::<JoinDef>::empty(),
            r.limit is None,
            r.order is None,
            r.from is None,
    {
        EntQuery {
            filters: Vec::new(),
            joins: Vec::new(),
            limit: None,
            order: None,
            marker: core::marker::PhantomData,
            from: None,
        }
    }

    /// Keeps the entities whose field `TField` satisfies `field_query`.
    pub fn where_field<TField: EntField<Ent = TEnt>>(
        self,
        field_query: impl FieldPredicate<TField>,
    ) -> (r: Self)
        ensures
            r.filters@.len() == self.filters@.len() + 1,
            r.filters@.drop_last() == self.filters@,
            field_query.spec_is_expr(r.filters@.last()),
            r.joins == self.joins,
            r.limit == self.limit,
            r.order == self.order,
            r.from == self.from,
    {
        let expr = field_query.to_expr();
        let r = self.where_expr(expr);
        assert(r.filters@.drop_last() == r.filters@.take(r.filters@.len() - 1));
        r
    }

    /// Query an outbound edge (regular edge)
    pub fn query_edge<TEdge: EntEdge<Ent = TEnt>>(self) -> (r: EntQuery<
        <TEdge::TargetField as EntField>::Ent,
    >)
        ensures
            r.filters@ == seq![spec_edge_filter::<TEdge, TEdge::TargetField>(self)],
            r.joins@ == Seq::<JoinDef>::empty(),
            r.limit is None,
            r.order is None,
            r.from is None,
    {
        // The subquery is kept even when this query selects every row: a
        // target row that no row of this table refers to is not loaded.
        let filters = vec![QueryPredicate::is_in::<TEdge::TargetField, _>(self.select::<TEdge>()).to_expr()];
        EntQuery {
            filters,
            joins: Vec::new(),
            limit: None,
            order: None,
            marker: core::marker::PhantomData,
            from: None,
        }
    }

    /// Query an inbound edge (edge reference)
    pub fn query_edge_ref<TEdge: EntEdge>(self) -> (r: EntQuery<TEdge::Ent>) where
        TEdge::TargetField: EntField<Ent = TEnt>,

        ensures
            r.filters@ == spec_edge_filters::<TEdge::TargetField, TEdge>(self),
            r.joins@ == Seq::<JoinDef>::empty(),
            r.limit is None,
            r.order is None,
            r.from is None,
    {
        let filters = if self.is_constrained() {
            vec![QueryPredicate::is_in::<TEdge, _>(self.select::<TEdge::TargetField>()).to_expr()]
        } else {
            // Optimization: if the current query has no filters, joins, or limits, we can skip the subquery and just
            // query directly on the edge table
            Vec::new()
        };
        EntQuery {
            filters,
            joins: Vec::new(),
            limit: None,
            order: None,
            marker: core::marker::PhantomData,
            from: None,
        }
    }

    /// Orders the entities by the field `TField`; replaces any earlier order.
    pub fn order_by<TField: EntField<Ent = TEnt>>(self, dir: sea_query::Order) -> (r: Self)
        ensures
            r.order == Some((TField::NAME, dir)),
            r.from == self.from,
            r.filters == self.filters,
            r.joins == self.joins,
            r.limit == self.limit,
    {
        EntQuery {
            filters: self.filters,
            joins: self.joins,
            limit: self.limit,
            order: Some((TField::NAME, dir)),
            marker: core::marker::PhantomData,
            from: self.from,
        }
    }

    /// The same query, loading only the values of the field `TField`.
    pub fn select<TField: EntField<Ent = TEnt>>(self) -> (r: EntQuery<EntFieldProjection<TField>>)
        ensures
            r.spec_same_parts(self),
    {
        EntQuery {
            filters: self.filters,
            joins: self.joins,
            limit: self.limit,
            order: self.order,
            marker: core::marker::PhantomData,
            from: self.from,
        }
    }

    /// A join will include a related entity in the query output
    pub fn join<TEdge: EntEdge<Ent = TEnt>>(self) -> (r: EntQuery<
        EntWithEdges<TEnt, (<TEdge::TargetField as EntField>::Ent, ())>,
    >)
        ensures
            r.joins@ == self.joins@.push(
                JoinDef {
                    table: <<TEdge::TargetField as EntField>::Ent as Ent>::TABLE_NAME,
                    left_table: TEnt::TABLE_NAME,
                    left_col: TEdge::NAME,
                    right_table: <<TEdge::TargetField as EntField>::Ent as Ent>::TABLE_NAME,
                    right_col: <TEdge::TargetField as EntField>::NAME,
                },
            ),
            r.filters == self.filters,
            r.limit == self.limit,
            r.order == self.order,
            r.from == self.from,
    {
        let mut joins = self.joins;
        joins.push(
            JoinDef {
                table: <<TEdge::TargetField as EntField>::Ent as Ent>::TABLE_NAME,
                left_table: TEnt::TABLE_NAME,
                left_col: TEdge::NAME,
                right_table: <<TEdge::TargetField as EntField>::Ent as Ent>::TABLE_NAME,
                right_col: <TEdge::TargetField as EntField>::NAME,
            },
        );
        EntQuery {
            filters: self.filters,
            joins,
            limit: self.limit,
            order: self.order,
            marker: core::marker::PhantomData,
            from: self.from,
        }
    }
}

} // verus!
