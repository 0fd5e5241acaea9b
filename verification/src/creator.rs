//! Creations of new entities: the values of the fields of the new row.
use vstd::prelude::*;

use crate::assignments::{distinct_columns, entries_match, FieldAssignments};
use crate::field::EntField;
use crate::statement::InsertSpec;
use crate::value::{SqlType, SqlValue};
use crate::Ent;

verus! {

#[verifier::external_type_specification]
#[verifier::external_body]
pub struct ExSeaQueryError(sea_query::error::Error);

/// Why creating an entity failed.
pub enum EntCreatorError {
    DatabaseError(sqlx::Error),
    /// sea-query refused to build the statement.
    EntLoadError(sea_query::error::Error),
}

/// The creation of a new entity of type `TEnt`: the values of its fields.
pub struct EntCreator<TEnt: Ent> {
    /// The value of each field, by column name.
    field_mutations: FieldAssignments,
    marker: core::marker::PhantomData<TEnt>,
}

impl<TEnt: Ent> EntCreator<TEnt> {
    /// The SQL value of each column given so far.
    pub closed spec fn spec_values(&self) -> Map<Seq<char>, SqlValue> {
        self.field_mutations.spec_map()
    }

    /// A creation with no field given yet.
    pub fn new() -> (r: Self)
        ensures
            r.spec_values() == Map::<Seq<char>, SqlValue>::empty(),
    {
        EntCreator { field_mutations: FieldAssignments::new(), marker: core::marker::PhantomData }
    }

    /// Sets the new value for a field in the mutation. This will overwrite any
    /// previous mutation for the same field.
    pub fn set<TField: EntField<Ent = TEnt>>(self, new_value: TField::Value) -> (r: Self)
        ensures
            r.spec_values() == self.spec_values().insert(TField::NAME@, new_value.spec_to_sql()),
    {
        let mut field_mutations = self.field_mutations;
        field_mutations.set(TField::NAME, new_value.to_sql());
        EntCreator { field_mutations, marker: core::marker::PhantomData }
    }

    /// Unsets the value for a field in the mutation, effectively removing any
    /// previous mutation for that field.
    pub fn unset<TField: EntField<Ent = TEnt>>(self) -> (r: Self)
        ensures
            r.spec_values() == self.spec_values().remove(TField::NAME@),
    {
        let mut field_mutations = self.field_mutations;
        field_mutations.unset(TField::NAME);
        EntCreator { field_mutations, marker: core::marker::PhantomData }
    }

    /// The `INSERT ... RETURNING *` statement that creates the entity with
    /// the values given.
    pub fn into_insert(self) -> (r: InsertSpec)
        ensures
            r.table == TEnt::TABLE_NAME,
            distinct_columns(r.values@),
            entries_match(r.values@, self.spec_values()),
    {
        InsertSpec { table: TEnt::TABLE_NAME, values: self.field_mutations.into_entries() }
    }
}

} // verus!
