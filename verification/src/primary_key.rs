//! Primary keys: the field, or the fields, that identify an entity.
use vstd::prelude::*;

use crate::field::EntField;
use crate::statement::SqlExpr;
use crate::value::{SqlType, SqlValue};
use crate::Ent;

verus! {

/// The primary key of `TEnt`: one field, or a tuple of two or three fields.
pub trait EntPrimaryKey<TEnt> {
    type Value;

    /// The key of `ent`.
    spec fn spec_get_value(ent: &TEnt) -> Self::Value;

    /// The condition that selects the row whose key is `value`.
    spec fn spec_as_expr(value: Self::Value) -> SqlExpr;

    /// The SQL values of the key's columns, in order.
    spec fn spec_key(value: &Self::Value) -> Seq<SqlValue>;

    fn get_value(ent: &TEnt) -> (r: Self::Value)
        ensures
            r == Self::spec_get_value(ent),
    ;

    fn as_expr(value: Self::Value) -> (r: SqlExpr)
        ensures
            r == Self::spec_as_expr(value),
    ;

    fn key(value: &Self::Value) -> (r: Vec<SqlValue>)
        ensures
            r@ == Self::spec_key(value),
    ;
}

/// `"table"."column" = value` for the field `TField`.
pub open spec fn field_equals<TField: EntField>(value: TField::Value) -> SqlExpr {
    SqlExpr::Equals {
        table: <TField::Ent as Ent>::TABLE_NAME,
        column: TField::NAME,
        value: value.spec_to_sql(),
    }
}

fn field_equals_expr<TField: EntField>(value: &TField::Value) -> (r: SqlExpr)
    ensures
        r == field_equals::<TField>(*value),
{
    SqlExpr::Equals {
        table: <TField::Ent as Ent>::TABLE_NAME,
        column: TField::NAME,
        value: value.to_sql(),
    }
}

impl<TEnt: Ent, TField: EntField<Ent = TEnt>> EntPrimaryKey<TEnt> for TField {
    type Value = TField::Value;

    open spec fn spec_get_value(ent: &TEnt) -> TField::Value {
        TField::spec_get_value(ent)
    }

    open spec fn spec_as_expr(value: TField::Value) -> SqlExpr {
        field_equals::<TField>(value)
    }

    open spec fn spec_key(value: &TField::Value) -> Seq<SqlValue> {
        seq![value.spec_to_sql()]
    }

    fn get_value(ent: &TEnt) -> (r: TField::Value) {
        TField::get_value(ent).duplicate()
    }

    fn as_expr(value: TField::Value) -> (r: SqlExpr) {
        field_equals_expr::<TField>(&value)
    }

    fn key(value: &TField::Value) -> (r: Vec<SqlValue>) {
        let mut k = Vec::new();
        k.push(value.to_sql());
        k
    }
}

impl<TEnt: Ent, T1: EntField<Ent = TEnt>, T2: EntField<Ent = TEnt>> EntPrimaryKey<TEnt> for (
    T1,
    T2,
) {
    type Value = (T1::Value, T2::Value);

    open spec fn spec_get_value(ent: &TEnt) -> (T1::Value, T2::Value) {
        (T1::spec_get_value(ent), T2::spec_get_value(ent))
    }

    open spec fn spec_as_expr(value: (T1::Value, T2::Value)) -> SqlExpr {
        SqlExpr::And(Box::new(field_equals::<T1>(value.0)), Box::new(field_equals::<T2>(value.1)))
    }

    open spec fn spec_key(value: &(T1::Value, T2::Value)) -> Seq<SqlValue> {
        seq![value.0.spec_to_sql(), value.1.spec_to_sql()]
    }

    fn get_value(ent: &TEnt) -> (r: (T1::Value, T2::Value)) {
        (T1::get_value(ent).duplicate(), T2::get_value(ent).duplicate())
    }

    fn as_expr(value: (T1::Value, T2::Value)) -> (r: SqlExpr) {
        SqlExpr::And(
            Box::new(field_equals_expr::<T1>(&value.0)),
            Box::new(field_equals_expr::<T2>(&value.1)),
        )
    }

    fn key(value: &(T1::Value, T2::Value)) -> (r: Vec<SqlValue>) {
        let mut k = Vec::new();
        k.push(value.0.to_sql());
        k.push(value.1.to_sql());
        k
    }
}

impl<
    TEnt: Ent,
    T1: EntField<Ent = TEnt>,
    T2: EntField<Ent = TEnt>,
    T3: EntField<Ent = TEnt>,
> EntPrimaryKey<TEnt> for (T1, T2, T3) {
    type Value = (T1::Value, T2::Value, T3::Value);

    open spec fn spec_get_value(ent: &TEnt) -> (T1::Value, T2::Value, T3::Value) {
        (T1::spec_get_value(ent), T2::spec_get_value(ent), T3::spec_get_value(ent))
    }

    open spec fn spec_as_expr(value: (T1::Value, T2::Value, T3::Value)) -> SqlExpr {
        SqlExpr::And(
            Box::new(
                SqlExpr::And(
                    Box::new(field_equals::<T1>(value.0)),
                    Box::new(field_equals::<T2>(value.1)),
                ),
            ),
            Box::new(field_equals::<T3>(value.2)),
        )
    }

    open spec fn spec_key(value: &(T1::Value, T2::Value, T3::Value)) -> Seq<SqlValue> {
        seq![value.0.spec_to_sql(), value.1.spec_to_sql(), value.2.spec_to_sql()]
    }

    fn get_value(ent: &TEnt) -> (r: (T1::Value, T2::Value, T3::Value)) {
        (
            T1::get_value(ent).duplicate(),
            T2::get_value(ent).duplicate(),
            T3::get_value(ent).duplicate(),
        )
    }

    fn as_expr(value: (T1::Value, T2::Value, T3::Value)) -> (r: SqlExpr) {
        SqlExpr::And(
            Box::new(
                SqlExpr::And(
                    Box::new(field_equals_expr::<T1>(&value.0)),
                    Box::new(field_equals_expr::<T2>(&value.1)),
                ),
            ),
            Box::new(field_equals_expr::<T3>(&value.2)),
        )
    }

    fn key(value: &(T1::Value, T2::Value, T3::Value)) -> (r: Vec<SqlValue>) {
        let mut k = Vec::new();
        k.push(value.0.to_sql());
        k.push(value.1.to_sql());
        k.push(value.2.to_sql());
        k
    }
}

} // verus!
