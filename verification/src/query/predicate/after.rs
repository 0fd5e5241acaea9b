//! The "after" predicate on date-time fields.
use vstd::prelude::*;

use crate::field::EntField;
use crate::query::predicate::{FieldPredicate, QueryPredicate};
use crate::statement::SqlExpr;
use crate::value::SqlType;
use crate::Ent;

verus! {

/// A column type whose values are ordered in time, for which "after" is
/// meaningful.
pub trait AfterFieldValue: SqlType {}

impl AfterFieldValue for chrono::NaiveDateTime {}

/// `field > value`
#[verifier::reject_recursive_types(TValue)]
pub struct AfterPredicate<TValue: AfterFieldValue, T: EntField<Value = TValue>>(
    pub TValue,
    pub core::marker::PhantomData<T>,
);

/// `"table"."column" > value` for the field `T`.
pub open spec fn field_after<T: EntField>(value: T::Value) -> SqlExpr {
    SqlExpr::GreaterThan {
        table: <T::Ent as Ent>::TABLE_NAME,
        column: T::NAME,
        value: value.spec_to_sql(),
    }
}

impl<TValue: AfterFieldValue, T: EntField<Value = TValue>> FieldPredicate<T> for AfterPredicate<
    TValue,
    T,
> {
    open spec fn spec_is_expr(&self, e: SqlExpr) -> bool {
        e == field_after::<T>(self.0)
    }

    fn to_expr(self) -> (r: SqlExpr) {
        SqlExpr::GreaterThan {
            table: <T::Ent as Ent>::TABLE_NAME,
            column: T::NAME,
            value: self.0.to_sql(),
        }
    }
}

impl QueryPredicate {
    /// Creates a predicate that checks if a field's value is after the given value.
    /// Maps to a SQL `>` operator
    pub fn after<TValue: AfterFieldValue, T: EntField<Value = TValue>>(value: TValue) -> (r:
        AfterPredicate<TValue, T>)
        ensures
            r.0 == value,
            forall|e: SqlExpr| r.spec_is_expr(e) <==> e == field_after::<T>(value),
    {
        AfterPredicate(value, core::marker::PhantomData)
    }
}

} // verus!
