//! Fields (columns) of an entity.
use vstd::prelude::*;

use crate::value::SqlType;
use crate::Ent;

verus! {

/// Whether a field may be changed by a mutation.
pub trait FieldVisibility {}

/// A field that mutations cannot change (for instance a primary key).
pub struct ReadOnly;

impl FieldVisibility for ReadOnly {}

/// A field that mutations can change.
pub struct ReadWrite;

impl FieldVisibility for ReadWrite {}

/// A field of an entity: its column name, the type of its values, the entity
/// it belongs to, and whether mutations may change it.
pub trait EntField: Sized {
    /// The column name.
    const NAME: &'static str;

    type Value: SqlType;

    type Ent: Ent;

    type Visibility: FieldVisibility;

    /// The value of this field in `ent`.
    spec fn spec_get_value(ent: &Self::Ent) -> Self::Value;

    fn get_value(ent: &Self::Ent) -> (r: &Self::Value)
        ensures
            *r == Self::spec_get_value(ent),
    ;
}

/// A trait for getting the value of a field from an entity, used in both query predicates and mutation tracking.
pub trait EntFieldGetter<T, TOut> where Self: EntField {
    fn get(target: &T) -> &TOut;
}

/// A trait for setting the value of a field on an entity, used in mutation tracking.
pub trait EntFieldSetter<T> where Self: EntField {
    fn set(target: &mut T, new_value: Self::Value);
}

} // verus!
