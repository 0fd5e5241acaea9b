//! Mutations of an existing entity: which fields change to which values.
use vstd::prelude::*;

use crate::assignments::{distinct_columns, entries_match, FieldAssignments};
use crate::field::{EntField, ReadWrite};
use crate::primary_key::EntPrimaryKey;
use crate::privacy::PrivacyRuleOutcome;
use crate::query::EntLoadOnlyError;
use crate::statement::UpdateSpec;
use crate::value::{SqlType, SqlValue};
use crate::Ent;

verus! {

/// Why applying a mutation failed.
pub enum EntMutationError {
    DatabaseError(sqlx::Error),
    /// A rule of the entity's mutation policy denied the mutation.
    PrivacyPolicyDenied,
    /// Reloading the entity after the update failed.
    EntLoadError(EntLoadOnlyError),
}

/// Whether a mutation changes a field.
pub enum EntMutationFieldState<TField: EntField> {
    /// The field is not being mutated.
    Unset,
    /// The field is being mutated to a new value.
    SetTo(TField::Value),
}

/// Represents a reference to a field mutation, allowing us to track the old and new values of the field.
pub struct EntMutationField<'a, TField: EntField> {
    pub old: &'a TField::Value,
    pub new: EntMutationFieldState<TField>,
}

/// A mutation of the entity `ent`: the new values of some of its fields.
pub struct EntMutator<'a, TEnt: Ent> {
    ent: &'a TEnt,
    /// The new value of each mutated field, by column name.
    field_mutations: FieldAssignments,
}

impl<'a, TEnt: Ent> EntMutator<'a, TEnt> {
    /// The entity being mutated.
    pub closed spec fn spec_ent(&self) -> TEnt {
        *self.ent
    }

    /// The new SQL value of each mutated column.
    pub closed spec fn spec_mutations(&self) -> Map<Seq<char>, SqlValue> {
        self.field_mutations.spec_map()
    }

    /// A mutation of `ent` that changes nothing yet.
    pub fn new(ent: &'a TEnt) -> (r: Self)
        ensures
            r.spec_ent() == *ent,
            r.spec_mutations() == Map::<Seq<char>, SqlValue>::empty(),
    {
        EntMutator { ent, field_mutations: FieldAssignments::new() }
    }

    /// The entity being mutated.
    pub fn ent(&self) -> (r: &'a TEnt)
        ensures
            *r == self.spec_ent(),
    {
        self.ent
    }

    /// Sets the new value for a field in the mutation. This will overwrite any
    /// previous mutation for the same field.
    pub fn set<TField: EntField<Ent = TEnt, Visibility = ReadWrite>>(
        &mut self,
        new_value: TField::Value,
    )
        ensures
            final(self).spec_ent() == old(self).spec_ent(),
            final(self).spec_mutations() == old(self).spec_mutations().insert(
                TField::NAME@,
                new_value.spec_to_sql(),
            ),
    {
        let value = new_value.to_sql();
        self.field_mutations.set(TField::NAME, value);
    }

    /// Unsets the value for a field in the mutation, effectively removing any
    /// previous mutation for that field.
    pub fn unset<TField: EntField<Ent = TEnt, Visibility = ReadWrite>>(&mut self)
        ensures
            final(self).spec_ent() == old(self).spec_ent(),
            final(self).spec_mutations() == old(self).spec_mutations().remove(TField::NAME@),
    {
        self.field_mutations.unset(TField::NAME);
    }

    /// Gets the current state of a field in the mutation, including the old
    /// value and the new value if it has been set.
    pub fn get<'b, TField: EntField<Ent = TEnt>>(&'b self) -> (r: EntMutationField<'b, TField>)
        requires
            self.spec_mutations().contains_key(TField::NAME@) ==> TField::Value::spec_accepts(
                self.spec_mutations()[TField::NAME@],
            ),
        ensures
            *r.old == TField::spec_get_value(&self.spec_ent()),
            !self.spec_mutations().contains_key(TField::NAME@) ==> r.new is Unset,
            self.spec_mutations().contains_key(TField::NAME@) ==> (r.new matches
                EntMutationFieldState::SetTo(v) && v.spec_to_sql()
                == self.spec_mutations()[TField::NAME@]),
            // the new value is the very value that was set
            forall|x: TField::Value|
                self.spec_mutations().contains_key(TField::NAME@) && #[trigger] x.spec_to_sql()
                    == self.spec_mutations()[TField::NAME@] ==> r.new
                    == EntMutationFieldState::<TField>::SetTo(x),
    {
        let old = TField::get_value(self.ent);
        let new = match self.field_mutations.get(TField::NAME) {
            Some(value) => match TField::Value::from_sql(value) {
                Some(v) => {
                    proof {
                        assert forall|x: TField::Value|
                            self.spec_mutations().contains_key(TField::NAME@)
                                && #[trigger] x.spec_to_sql() == self.spec_mutations()[TField::NAME@]
                            implies x == v by {
                            TField::Value::lemma_to_sql_injective(&x, &v);
                        }
                    }
                    EntMutationFieldState::SetTo(v)
                },
                None => EntMutationFieldState::Unset,
            },
            None => EntMutationFieldState::Unset,
        };
        EntMutationField { old, new }
    }

    /// The `UPDATE` statement of this mutation: the mutated columns set to
    /// their new values, in the row whose primary key is the entity's.
    pub fn into_update(self) -> (r: UpdateSpec)
        ensures
            r.table == TEnt::TABLE_NAME,
            r.condition == TEnt::PrimaryKey::spec_as_expr(
                TEnt::PrimaryKey::spec_get_value(&self.spec_ent()),
            ),
            distinct_columns(r.values@),
            entries_match(r.values@, self.spec_mutations()),
    {
        let key = TEnt::PrimaryKey::get_value(self.ent);
        let condition = TEnt::PrimaryKey::as_expr(key);
        UpdateSpec { table: TEnt::TABLE_NAME, values: self.field_mutations.into_entries(), condition }
    }
}

} // verus!
