//! Queries that join related entities, and the entities they load together
//! with the joined ones.
use vstd::prelude::*;

use crate::field::EntField;
use crate::query::predicate::FieldPredicate;
use crate::query::EntQuery;
use crate::statement::JoinDef;
use crate::{Ent, EntEdge};

verus! {

/// An entity loaded together with the entities that a query joined, held as
/// a list `(first, (second, (... , ())))`.
pub struct EntWithEdges<E: Ent, Edges> {
    pub ent: E,
    pub edges: Edges,
}

/// Index into an edge list: the head.
pub struct Here;

/// Index into an edge list: somewhere in the tail, at index `T` of it.
pub struct There<T>(pub core::marker::PhantomData<T>);

/// Finds the edge of type `Edge` in a list, at the position `Index`.
pub trait GetEdge<Edge, Index> {
    /// The edge at `Index`.
    spec fn spec_edge(&self) -> Edge;

    fn edge(&self) -> (r: &Edge)
        ensures
            *r == self.spec_edge(),
    ;
}

impl<Edge, T> GetEdge<Edge, Here> for (Edge, T) {
    open spec fn spec_edge(&self) -> Edge {
        self.0
    }

    fn edge(&self) -> (r: &Edge) {
        &self.0
    }
}

impl<Edge, H, T, Index> GetEdge<Edge, There<Index>> for (H, T) where T: GetEdge<Edge, Index> {
    open spec fn spec_edge(&self) -> Edge {
        self.1.spec_edge()
    }

    fn edge(&self) -> (r: &Edge) {
        self.1.edge()
    }
}

/// Marks that the list `Self` holds an entity of type `E`, at position `Index`.
pub trait ContainsEnt<E, Index> {}

impl<E, T> ContainsEnt<E, Here> for (E, T) {}

impl<E, H, T, Index> ContainsEnt<E, There<Index>> for (H, T) where T: ContainsEnt<E, Index> {}

impl<E: Ent, Edges> EntWithEdges<E, Edges> {
    pub fn new(ent: E, edges: Edges) -> (r: Self)
        ensures
            r.ent == ent,
            r.edges == edges,
    {
        EntWithEdges { ent, edges }
    }

    /// The joined entity of type `Edge`.
    pub fn edge<Edge, Index>(&self) -> (r: &Edge) where Edges: GetEdge<Edge, Index>
        ensures
            *r == self.edges.spec_edge(),
    {
        self.edges.edge()
    }

    /// The entity itself.
    pub fn ent(&self) -> (r: &E)
        ensures
            *r == self.ent,
    {
        &self.ent
    }
}

impl<E: Ent, Edges> core::ops::Deref for EntWithEdges<E, Edges> {
    type Target = E;

    fn deref(&self) -> (r: &E)
        ensures
            *r == self.ent,
    {
        &self.ent
    }
}

impl<TEnt: Ent, TEdges> EntQuery<EntWithEdges<TEnt, TEdges>> {
    /// Keeps the rows whose field `TField`, of the entity or of a joined
    /// entity, satisfies `field_query`.
    pub fn where_field<TField: EntField, Index>(
        self,
        field_query: impl FieldPredicate<TField>,
    ) -> (r: Self) where (TEnt, TEdges): ContainsEnt<TField::Ent, Index>
        ensures
            r.filters@.len() == self.filters@.len() + 1,
            r.filters@.drop_last() == self.filters@,
            field_query.spec_is_expr(r.filters@.last()),
            r.joins == self.joins,
            r.limit == self.limit,
            r.order == self.order,
            r.from == self.from,
    {
        let expr = field_query.to_expr();
        let r = self.where_expr(expr);
        assert(r.filters@.drop_last() == r.filters@.take(r.filters@.len() - 1));
        r
    }

    /// Orders the rows by the column named like the field `TField`, taken in
    /// the entity's own table; replaces any earlier order.
    pub fn order_by<TField: EntField, Index>(self, dir: sea_query::Order) -> (r: Self) where
        (TEnt, TEdges): ContainsEnt<TField::Ent, Index>,

        ensures
            r.order == Some((TField::NAME, dir)),
            r.from == self.from,
            r.filters == self.filters,
            r.joins == self.joins,
            r.limit == self.limit,
    {
        EntQuery {
            filters: self.filters,
            joins: self.joins,
            limit: self.limit,
            order: Some((TField::NAME, dir)),
            marker: core::marker::PhantomData,
            from: self.from,
        }
    }

    /// Joins one more entity, the target of the edge `TEdge` of the entity.
    pub fn join<TEdge: EntEdge<Ent = TEnt>>(self) -> (r: EntQuery<
        EntWithEdges<TEnt, (<TEdge::TargetField as EntField>::Ent, TEdges)>,
    >)
        ensures
            r.joins@ == self.joins@.push(
                JoinDef {
                    table: <<TEdge::TargetField as EntField>::Ent as Ent>::TABLE_NAME,
                    left_table: TEnt::TABLE_NAME,
                    left_col: TEdge::NAME,
                    right_table: <<TEdge::TargetField as EntField>::Ent as Ent>::TABLE_NAME,
                    right_col: <TEdge::TargetField as EntField>::NAME,
                },
            ),
            r.filters == self.filters,
            r.limit == self.limit,
            r.order == self.order,
            r.from == self.from,
    {
        let mut joins = self.joins;
        joins.push(
            JoinDef {
                table: <<TEdge::TargetField as EntField>::Ent as Ent>::TABLE_NAME,
                left_table: TEnt::TABLE_NAME,
                left_col: TEdge::NAME,
                right_table: <<TEdge::TargetField as EntField>::Ent as Ent>::TABLE_NAME,
                right_col: <TEdge::TargetField as EntField>::NAME,
            },
        );
        EntQuery {
            filters: self.filters,
            joins,
            limit: self.limit,
            order: self.order,
            marker: core::marker::PhantomData,
            from: self.from,
        }
    }

    /// Downcast the query to a specific entity type, as long as the new entity is contained in the edges. Note that
    /// this means only the privacy policy of the downcast-to entity will be applied.
    pub fn downcast<TTarget: Ent, Index>(self) -> (r: EntQuery<TTarget>) where
        (TEnt, TEdges): ContainsEnt<TTarget, Index>,

        ensures
            r.filters == self.filters,
            r.joins == self.joins,
            r.limit == self.limit,
            r.order == self.order,
            // the rows still come from the table the joins start from
            r.from == Some(self.spec_from_table(TEnt::TABLE_NAME)),
    {
        EntQuery {
            filters: self.filters,
            joins: self.joins,
            limit: self.limit,
            order: self.order,
            marker: core::marker::PhantomData,
            from: match self.from {
                Some(t) => Some(t),
                None => Some(TEnt::TABLE_NAME),
            },
        }
    }
}

} // verus!
