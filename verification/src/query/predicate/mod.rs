//! Conditions on one field of an entity.
use vstd::prelude::*;

pub mod after;
pub mod is_in;

use crate::field::EntField;
use crate::primary_key::field_equals;
use crate::statement::SqlExpr;
use crate::value::SqlType;
use crate::Ent;

verus! {

/// A condition on the field `TField`.
pub trait FieldPredicate<TField: EntField> {
    /// Whether `e` is the `WHERE` condition this predicate stands for.
    spec fn spec_is_expr(&self, e: SqlExpr) -> bool;

    fn to_expr(self) -> (r: SqlExpr)
        ensures
            self.spec_is_expr(r),
    ;
}

/// Constructors of field predicates.
pub struct QueryPredicate;

/// `field = value`
pub struct EqualsPredicate<T: EntField>(pub T::Value);

impl<T: EntField> FieldPredicate<T> for EqualsPredicate<T> {
    open spec fn spec_is_expr(&self, e: SqlExpr) -> bool {
        e == field_equals::<T>(self.0)
    }

    fn to_expr(self) -> (r: SqlExpr) {
        SqlExpr::Equals {
            table: <T::Ent as Ent>::TABLE_NAME,
            column: T::NAME,
            value: self.0.to_sql(),
        }
    }
}

/// `NOT (predicate)`
pub struct NotPredicate<T: EntField>(pub SqlExpr, pub core::marker::PhantomData<T>);

impl<T: EntField> FieldPredicate<T> for NotPredicate<T> {
    open spec fn spec_is_expr(&self, e: SqlExpr) -> bool {
        e == SqlExpr::Not(Box::new(self.0))
    }

    fn to_expr(self) -> (r: SqlExpr) {
        SqlExpr::Not(Box::new(self.0))
    }
}

impl QueryPredicate {
    /// Creates a predicate that checks if a field's value is equal to the given value. Maps to a SQL `=` operator.
    pub fn equals<T: EntField>(value: T::Value) -> (r: EqualsPredicate<T>)
        ensures
            r.0 == value,
            forall|e: SqlExpr| r.spec_is_expr(e) <==> e == field_equals::<T>(value),
    {
        EqualsPredicate(value)
    }

    /// Creates a predicate that negates another predicate, e.g. `NOT (predicate)`.
    pub fn not<T: EntField>(predicate: impl FieldPredicate<T>) -> (r: NotPredicate<T>)
        ensures
            predicate.spec_is_expr(r.0),
            forall|e: SqlExpr| r.spec_is_expr(e) <==> e == SqlExpr::Not(Box::new(r.0)),
    {
        NotPredicate(predicate.to_expr(), core::marker::PhantomData)
    }
}

} // verus!
