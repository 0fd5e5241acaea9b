//! Queries that load the values of one field.
use vstd::prelude::*;

use crate::field::EntField;
use crate::query::EntQuery;
use crate::value::SqlType;

verus! {

/// The output of a query that loads the values of the field `TField`.
pub struct EntFieldProjection<TField: EntField>(pub core::marker::PhantomData<TField>);

impl<TField: EntField> EntQuery<EntFieldProjection<TField>> {
    /// Downcast the projection to the entity type. This is useful for querying
    /// since we want to load the full entities to apply privacy policies, but
    /// filter the results down to a specific field after loading.
    pub fn downcast(self) -> (r: EntQuery<TField::Ent>)
        ensures
            r.spec_same_parts(self),
    {
        EntQuery {
            filters: self.filters,
            joins: self.joins,
            limit: self.limit,
            order: self.order,
            marker: core::marker::PhantomData,
            from: self.from,
        }
    }
}

/// The values of the field `TField` of `ents`, in order: what a load of a
/// single-field query gives, from the entities that the entity's query
/// policy let through.
pub fn project_values<TField: EntField>(ents: &Vec<TField::Ent>) -> (r: Vec<TField::Value>)
    ensures
        r@.len() == ents@.len(),
        forall|i: int| 0 <= i < ents@.len() ==> r@[i] == TField::spec_get_value(&#[trigger] ents@[i]),
{
    let mut r: Vec<TField::Value> = Vec::new();
    let mut i: usize = 0;
    while i < ents.len()
        invariant
            i <= ents@.len(),
            r@.len() == i,
            forall|j: int| 0 <= j < i ==> r@[j] == TField::spec_get_value(&#[trigger] ents@[j]),
        decreases ents@.len() - i,
    {
        r.push(TField::get_value(&ents[i]).duplicate());
        i = i + 1;
    }
    r
}

} // verus!
