//! The "in" predicate: a field's value is one of a list, or one of the values
//! a subquery selects.
use vstd::prelude::*;

use crate::field::EntField;
use crate::query::predicate::{FieldPredicate, QueryPredicate};
use crate::query::projection::EntFieldProjection;
use crate::query::EntQuery;
use crate::statement::{SelectSpec, SqlExpr};
use crate::value::{SqlType, SqlValue};
use crate::Ent;

verus! {

/// Something that a value of `TField` can be "in": a list of values, or a
/// query that selects one field.
pub trait InFieldExpression<TField: EntField> {
    /// Whether `e` is the `IN` condition on `TField`.
    spec fn spec_is_in_expr(&self, e: SqlExpr) -> bool;

    fn is_in(self) -> (r: SqlExpr)
        ensures
            self.spec_is_in_expr(r),
    ;
}

/// The SQL values of a list of column values, in order.
pub open spec fn spec_sql_values<T: SqlType>(values: Seq<T>) -> Seq<SqlValue> {
    values.map_values(|v: T| v.spec_to_sql())
}

impl<TField: EntField> InFieldExpression<TField> for Vec<TField::Value> {
    open spec fn spec_is_in_expr(&self, e: SqlExpr) -> bool {
        &&& e matches SqlExpr::InValues { table, column, values }
        &&& table == <TField::Ent as Ent>::TABLE_NAME
        &&& column == TField::NAME
        &&& values@ == spec_sql_values(self@)
    }

    fn is_in(self) -> (r: SqlExpr) {
        let mut values: Vec<SqlValue> = Vec::new();
        let mut i: usize = 0;
        while i < self.len()
            invariant
                i <= self@.len(),
                values@ == spec_sql_values(self@.take(i as int)),
            decreases self@.len() - i,
        {
            values.push(self[i].to_sql());
            assert(self@.take(i as int + 1) == self@.take(i as int).push(self@[i as int]));
            i = i + 1;
        }
        assert(self@.take(i as int) == self@);
        SqlExpr::InValues { table: <TField::Ent as Ent>::TABLE_NAME, column: TField::NAME, values }
    }
}

/// The `SELECT` of a single-field query: the query's statement on the
/// field's table, selecting that field instead of `*`.
pub open spec fn spec_projection_select<TProjectedField: EntField>(
    query: EntQuery<EntFieldProjection<TProjectedField>>,
) -> SelectSpec {
    query.spec_select_on(
        <TProjectedField::Ent as Ent>::TABLE_NAME,
        Some((<TProjectedField::Ent as Ent>::TABLE_NAME, TProjectedField::NAME)),
    )
}

impl<
    TField: EntField,
    TProjectedField: EntField<Value = TField::Value>,
> InFieldExpression<TField> for EntQuery<EntFieldProjection<TProjectedField>> {
    open spec fn spec_is_in_expr(&self, e: SqlExpr) -> bool {
        e == SqlExpr::InSubquery {
            table: <TField::Ent as Ent>::TABLE_NAME,
            column: TField::NAME,
            subquery: Box::new(spec_projection_select(*self)),
        }
    }

    fn is_in(self) -> (r: SqlExpr) {
        let select = self.select_on(
            <TProjectedField::Ent as Ent>::TABLE_NAME,
            Some((<TProjectedField::Ent as Ent>::TABLE_NAME, TProjectedField::NAME)),
        );
        SqlExpr::InSubquery {
            table: <TField::Ent as Ent>::TABLE_NAME,
            column: TField::NAME,
            subquery: Box::new(select),
        }
    }
}

/// `field IN (...)`
pub struct InPredicate<TField: EntField, T: InFieldExpression<TField>>(
    pub T,
    pub core::marker::PhantomData<TField>,
);

impl<TField: EntField, T: InFieldExpression<TField>> FieldPredicate<TField> for InPredicate<
    TField,
    T,
> {
    open spec fn spec_is_expr(&self, e: SqlExpr) -> bool {
        self.0.spec_is_in_expr(e)
    }

    fn to_expr(self) -> (r: SqlExpr) {
        self.0.is_in()
    }
}

impl QueryPredicate {
    /// Creates a predicate that checks if a field's value is in the given list of values or subquery.
    pub fn is_in<TField: EntField, T: InFieldExpression<TField>>(values: T) -> (r: InPredicate<
        TField,
        T,
    >)
        ensures
            r.0 == values,
            forall|e: SqlExpr| r.spec_is_expr(e) <==> values.spec_is_in_expr(e),
    {
        InPredicate(values, core::marker::PhantomData)
    }
}

} // verus!
