use vstd::prelude::*;

pub mod assignments;
pub mod cache;
pub mod creator;
pub mod field;
pub mod laws;
pub mod mutator;
pub mod primary_key;
pub mod privacy;
pub mod query;
pub mod render;
pub mod schema;
pub mod statement;
pub mod value;

use crate::creator::EntCreator;
use crate::field::EntField;
use crate::mutator::EntMutator;
use crate::primary_key::{field_equals, EntPrimaryKey};
use crate::query::predicate::QueryPredicate as P;
use crate::query::EntQuery;
use crate::statement::{DeleteSpec, JoinDef, SqlExpr};
use crate::value::{SqlType, SqlValue};

verus! {

/// Why deleting an entity failed.
pub enum EntDeletionError {
    /// The database refused the statement or the connection failed.
    QueryError(sqlx::Error),
}

/// An entity: a row of the table `TABLE_NAME`, identified by `PrimaryKey`.
pub trait Ent: Sized {
    const TABLE_NAME: &'static str;

    type PrimaryKey: EntPrimaryKey<Self>;
}

/// What every entity offers: queries, creations, mutations, and the queries
/// that follow its edges.
pub trait EntExt: Ent {
    /// Start an EntQuery for this entity type.
    fn query() -> (r: EntQuery<Self>)
        ensures
            r.filters@ == Seq::<SqlExpr>::empty(),
            r.joins@ == Seq::<JoinDef>::empty(),
            r.limit is None,
            r.order is None,
            r.from is None,
    {
        EntQuery::new()
    }

    /// Start the creation of a new entity of this type.
    fn create() -> (r: EntCreator<Self>)
        ensures
            r.spec_values() == Map::<Seq<char>, SqlValue>::empty(),
    {
        EntCreator::new()
    }

    /// Start a mutation of this entity.
    fn mutate<'a>(&'a self) -> (r: EntMutator<'a, Self>)
        ensures
            r.spec_ent() == *self,
            r.spec_mutations() == Map::<Seq<char>, SqlValue>::empty(),
    {
        EntMutator::new(self)
    }

    /// The query that loads the entity whose primary key is `primary_key`
    /// from the database (when the cache does not hold it).
    fn load_query(primary_key: <Self::PrimaryKey as EntPrimaryKey<Self>>::Value) -> (r: EntQuery<
        Self,
    >)
        ensures
            r.filters@ == seq![Self::PrimaryKey::spec_as_expr(primary_key)],
            r.joins@ == Seq::<JoinDef>::empty(),
            r.limit is None,
            r.order is None,
            r.from is None,
    {
        let q = Self::query().where_expr(Self::PrimaryKey::as_expr(primary_key));
        assert(q.filters@ =~= seq![Self::PrimaryKey::spec_as_expr(primary_key)]);
        q
    }

    /// The statement that deletes this entity: its row, found by primary key.
    fn delete_statement(&self) -> (r: DeleteSpec)
        ensures
            r.table == Self::TABLE_NAME,
            r.condition == Self::PrimaryKey::spec_as_expr(Self::PrimaryKey::spec_get_value(self)),
    {
        let primary_key = Self::PrimaryKey::get_value(self);
        DeleteSpec { table: Self::TABLE_NAME, condition: Self::PrimaryKey::as_expr(primary_key) }
    }
    /// Create an EntQuery for an edge, but don't execute it - this is useful for building up more complex queries that
    /// involve edges.
    fn query_edge<TEdge: EntEdge<Ent = Self>>(&self) -> (r: EntQuery<
        <TEdge::TargetField as EntField>::Ent,
    >)
        ensures
            r.filters@ == seq![field_equals::<TEdge::TargetField>(TEdge::spec_get_value(self))],
            r.joins@ == Seq::<JoinDef>::empty(),
            r.limit is None,
            r.order is None,
            r.from is None,
    {
        let value = TEdge::get_value(self).duplicate();
        let q = EntQuery::<<TEdge::TargetField as EntField>::Ent>::new().where_field::<
            TEdge::TargetField,
        >(P::equals(value));
        assert(q.filters@ =~= seq![field_equals::<TEdge::TargetField>(TEdge::spec_get_value(self))]);
        q
    }

    /// Create an EntQuery for an inbound edge (edge reference)
    fn query_edge_ref<TEdge: EntEdge>(&self) -> (r: EntQuery<TEdge::Ent>) where
        TEdge::TargetField: EntField<Ent = Self>,

        ensures
            r.filters@ == seq![field_equals::<TEdge>(<TEdge::TargetField as EntField>::spec_get_value(self))],
            r.joins@ == Seq::<JoinDef>::empty(),
            r.limit is None,
            r.order is None,
            r.from is None,
    {
        let value = <TEdge::TargetField as EntField>::get_value(self).duplicate();
        let q = EntQuery::<TEdge::Ent>::new().where_field::<TEdge>(P::equals(value));
        assert(q.filters@ =~= seq![field_equals::<TEdge>(<TEdge::TargetField as EntField>::spec_get_value(self))]);
        q
    }

    /// Create an `EntQuery` for an optional edge. Returns `None` if the edge field value is `None`.
    fn query_optional_edge<TEdge: EntOptionalEdge<Ent = Self>>(&self) -> (r: Option<
        EntQuery<<TEdge::TargetField as EntField>::Ent>,
    >)
        ensures
            TEdge::spec_get_value(self) is None ==> r is None,
            TEdge::spec_get_value(self) matches Some(v) ==> r matches Some(q) && q.filters@ == seq![
                field_equals::<TEdge::TargetField>(v),
            ] && q.joins@ == Seq::<JoinDef>::empty() && q.limit is None && q.order is None && q.from is None,
    {
        match TEdge::get_value(self) {
            Some(v) => {
                let value = v.duplicate();
                let q = EntQuery::<<TEdge::TargetField as EntField>::Ent>::new().where_field::<
                    TEdge::TargetField,
                >(P::equals(value));
                assert(q.filters@ =~= seq![field_equals::<TEdge::TargetField>(*v)]);
                Some(q)
            },
            None => None,
        }
    }

    /// Create an `EntQuery` for an inbound optional edge reference (finds entities whose optional
    /// FK field references `self`).
    fn query_optional_edge_ref<TEdge: EntOptionalEdge>(&self) -> (r: EntQuery<TEdge::Ent>) where
        TEdge::TargetField: EntField<Ent = Self>,

        ensures
            r.filters@ == seq![
                field_equals::<TEdge>(Some(<TEdge::TargetField as EntField>::spec_get_value(self))),
            ],
            r.joins@ == Seq::<JoinDef>::empty(),
            r.limit is None,
            r.order is None,
            r.from is None,
    {
        let value = <TEdge::TargetField as EntField>::get_value(self).duplicate();
        let q = EntQuery::<TEdge::Ent>::new().where_field::<TEdge>(P::equals(Some(value)));
        assert(q.filters@ =~= seq![
            field_equals::<TEdge>(Some(<TEdge::TargetField as EntField>::spec_get_value(self))),
        ]);
        q
    }
}

impl<TEnt: Ent> EntExt for TEnt {

}

/// A field of an entity that refers to a field of another entity (a foreign
/// key): following the edge leads from `Self::Ent` to `TargetField::Ent`.
pub trait EntEdge where Self: EntField {
    type TargetField: EntField<Value = Self::Value>;
}

/// An optional foreign key: a field holding `Option` of the target field's
/// value.
pub trait EntOptionalEdge where
    Self: EntField<Value = Option<<Self::TargetField as EntField>::Value>>,
 {
    type TargetField: EntField;
}

} // verus!
