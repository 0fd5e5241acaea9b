//! Values that a column of an entity holds, as they are bound into SQL.
use vstd::prelude::*;

verus! {

#[verifier::external_type_specification]
#[verifier::external_body]
pub struct ExUuid(uuid::Uuid);

#[verifier::external_type_specification]
#[verifier::external_body]
pub struct ExNaiveDateTime(chrono::NaiveDateTime);

/// A value bound into a statement, one variant per column type that the
/// library knows. `None` is SQL `NULL`.
pub enum SqlValue {
    Bool(Option<bool>),
    Int(Option<i32>),
    BigInt(Option<i64>),
    String(Option<String>),
    Uuid(Option<uuid::Uuid>),
    ChronoDateTime(Option<chrono::NaiveDateTime>),
}

/// What a value is, with text taken by its characters.
pub enum SqlValueView {
    Bool(Option<bool>),
    Int(Option<i32>),
    BigInt(Option<i64>),
    String(Option<Seq<char>>),
    Uuid(Option<uuid::Uuid>),
    ChronoDateTime(Option<chrono::NaiveDateTime>),
}

impl View for SqlValue {
    type V = SqlValueView;

    open spec fn view(&self) -> SqlValueView {
        match self {
            SqlValue::Bool(b) => SqlValueView::Bool(*b),
            SqlValue::Int(i) => SqlValueView::Int(*i),
            SqlValue::BigInt(i) => SqlValueView::BigInt(*i),
            SqlValue::String(s) => SqlValueView::String(
                match s {
                    Some(t) => Some(t@),
                    None => None,
                },
            ),
            SqlValue::Uuid(u) => SqlValueView::Uuid(*u),
            SqlValue::ChronoDateTime(d) => SqlValueView::ChronoDateTime(*d),
        }
    }
}

/// Whether two UUIDs are the same value (`Uuid`'s `==`, which compares the
/// sixteen bytes).
#[verifier::external_body]
fn uuid_eq(a: &uuid::Uuid, b: &uuid::Uuid) -> (r: bool)
    ensures
        r == (*a == *b),
{
    a == b
}

/// Whether two date-times are the same value (`NaiveDateTime`'s derived `==`,
/// which compares the date and the time of day field by field).
#[verifier::external_body]
fn naive_date_time_eq(a: &chrono::NaiveDateTime, b: &chrono::NaiveDateTime) -> (r: bool)
    ensures
        r == (*a == *b),
{
    a == b
}

fn option_string_eq(a: &Option<String>, b: &Option<String>) -> (r: bool)
    ensures
        r == (match (a, b) {
            (Some(x), Some(y)) => x@ == y@,
            (None, None) => true,
            _ => false,
        }),
{
    match (a, b) {
        (Some(x), Some(y)) => x.eq(y),
        (None, None) => true,
        _ => false,
    }
}

impl SqlValue {
    /// A copy of this value.
    pub fn duplicate(&self) -> (r: SqlValue)
        ensures
            r == *self,
    {
        match self {
            SqlValue::Bool(b) => SqlValue::Bool(*b),
            SqlValue::Int(i) => SqlValue::Int(*i),
            SqlValue::BigInt(i) => SqlValue::BigInt(*i),
            SqlValue::String(s) => SqlValue::String(
                match s {
                    Some(t) => Some(t.clone()),
                    None => None,
                },
            ),
            SqlValue::Uuid(u) => SqlValue::Uuid(*u),
            SqlValue::ChronoDateTime(d) => SqlValue::ChronoDateTime(*d),
        }
    }

    /// Whether the two values are the same: the same variant, and the same
    /// contents, text compared character by character.
    pub fn same_as(&self, other: &SqlValue) -> (r: bool)
        ensures
            r == (self@ == other@),
    {
        match (self, other) {
            (SqlValue::Bool(a), SqlValue::Bool(b)) => *a == *b,
            (SqlValue::Int(a), SqlValue::Int(b)) => *a == *b,
            (SqlValue::BigInt(a), SqlValue::BigInt(b)) => *a == *b,
            (SqlValue::String(a), SqlValue::String(b)) => option_string_eq(a, b),
            (SqlValue::Uuid(a), SqlValue::Uuid(b)) => match (a, b) {
                (Some(x), Some(y)) => uuid_eq(x, y),
                (None, None) => true,
                _ => false,
            },
            (SqlValue::ChronoDateTime(a), SqlValue::ChronoDateTime(b)) => match (a, b) {
                (Some(x), Some(y)) => naive_date_time_eq(x, y),
                (None, None) => true,
                _ => false,
            },
            _ => false,
        }
    }
}

/// A type whose values a column can hold: each value has the SQL value it is
/// bound as, and can be read back from it.
pub trait SqlType: Sized {
    /// The SQL value that `self` is bound as.
    spec fn spec_to_sql(&self) -> SqlValue;

    /// Whether `v` is the SQL value of some value of this type.
    spec fn spec_accepts(v: SqlValue) -> bool;

    fn to_sql(&self) -> (r: SqlValue)
        ensures
            r == self.spec_to_sql(),
    ;

    /// A copy of `self`.
    fn duplicate(&self) -> (r: Self)
        ensures
            r == *self,
    ;

    fn from_sql(v: &SqlValue) -> (r: Option<Self>)
        ensures
            r is Some <==> Self::spec_accepts(*v),
            r matches Some(x) ==> x.spec_to_sql() == *v,
    ;

    proof fn lemma_accepts_own(x: &Self)
        ensures
            Self::spec_accepts(x.spec_to_sql()),
    ;

    /// Different values are bound as different SQL values: a value is read
    /// back from its SQL value exactly.
    proof fn lemma_to_sql_injective(a: &Self, b: &Self)
        ensures
            a.spec_to_sql() == b.spec_to_sql() ==> *a == *b,
    ;
}

/// A column type that has a nullable form: `Option` of it is a column type
/// too, with `None` bound as `NULL`.
pub trait SqlScalar: Sized {
    /// The SQL value of an optional value of this type.
    spec fn spec_wrap(x: Option<Self>) -> SqlValue;

    /// Whether `v` is of this type's variant.
    spec fn spec_is_variant(v: SqlValue) -> bool;

    fn wrap_some(x: &Self) -> (r: SqlValue)
        ensures
            r == Self::spec_wrap(Some(*x)),
    ;

    fn wrap_none() -> (r: SqlValue)
        ensures
            r == Self::spec_wrap(None),
    ;

    fn duplicate_scalar(x: &Self) -> (r: Self)
        ensures
            r == *x,
    ;

    fn unwrap_value(v: &SqlValue) -> (r: Option<Option<Self>>)
        ensures
            r is Some <==> Self::spec_is_variant(*v),
            r matches Some(o) ==> Self::spec_wrap(o) == *v,
    ;

    proof fn lemma_wrap_is_variant(x: Option<Self>)
        ensures
            Self::spec_is_variant(Self::spec_wrap(x)),
    ;

    proof fn lemma_wrap_injective(a: Option<Self>, b: Option<Self>)
        ensures
            Self::spec_wrap(a) == Self::spec_wrap(b) ==> a == b,
    ;
}

impl SqlScalar for bool {
    open spec fn spec_wrap(x: Option<bool>) -> SqlValue {
        SqlValue::Bool(x)
    }

    open spec fn spec_is_variant(v: SqlValue) -> bool {
        v is Bool
    }

    fn wrap_some(x: &bool) -> (r: SqlValue) {
        SqlValue::Bool(Some(*x))
    }

    fn wrap_none() -> (r: SqlValue) {
        SqlValue::Bool(None)
    }

    fn duplicate_scalar(x: &bool) -> (r: bool) {
        *x
    }

    fn unwrap_value(v: &SqlValue) -> (r: Option<Option<bool>>) {
        match v {
            SqlValue::Bool(b) => Some(*b),
            _ => None,
        }
    }

    proof fn lemma_wrap_is_variant(x: Option<bool>) {
    }

    proof fn lemma_wrap_injective(a: Option<bool>, b: Option<bool>) {
    }
}

impl SqlScalar for i32 {
    open spec fn spec_wrap(x: Option<i32>) -> SqlValue {
        SqlValue::Int(x)
    }

    open spec fn spec_is_variant(v: SqlValue) -> bool {
        v is Int
    }

    fn wrap_some(x: &i32) -> (r: SqlValue) {
        SqlValue::Int(Some(*x))
    }

    fn wrap_none() -> (r: SqlValue) {
        SqlValue::Int(None)
    }

    fn duplicate_scalar(x: &i32) -> (r: i32) {
        *x
    }

    fn unwrap_value(v: &SqlValue) -> (r: Option<Option<i32>>) {
        match v {
            SqlValue::Int(i) => Some(*i),
            _ => None,
        }
    }

    proof fn lemma_wrap_is_variant(x: Option<i32>) {
    }

    proof fn lemma_wrap_injective(a: Option<i32>, b: Option<i32>) {
    }
}

impl SqlScalar for i64 {
    open spec fn spec_wrap(x: Option<i64>) -> SqlValue {
        SqlValue::BigInt(x)
    }

    open spec fn spec_is_variant(v: SqlValue) -> bool {
        v is BigInt
    }

    fn wrap_some(x: &i64) -> (r: SqlValue) {
        SqlValue::BigInt(Some(*x))
    }

    fn wrap_none() -> (r: SqlValue) {
        SqlValue::BigInt(None)
    }

    fn duplicate_scalar(x: &i64) -> (r: i64) {
        *x
    }

    fn unwrap_value(v: &SqlValue) -> (r: Option<Option<i64>>) {
        match v {
            SqlValue::BigInt(i) => Some(*i),
            _ => None,
        }
    }

    proof fn lemma_wrap_is_variant(x: Option<i64>) {
    }

    proof fn lemma_wrap_injective(a: Option<i64>, b: Option<i64>) {
    }
}

impl SqlScalar for String {
    open spec fn spec_wrap(x: Option<String>) -> SqlValue {
        SqlValue::String(x)
    }

    open spec fn spec_is_variant(v: SqlValue) -> bool {
        v is String
    }

    fn wrap_some(x: &String) -> (r: SqlValue) {
        SqlValue::String(Some(x.clone()))
    }

    fn wrap_none() -> (r: SqlValue) {
        SqlValue::String(None)
    }

    fn duplicate_scalar(x: &String) -> (r: String) {
        x.clone()
    }

    fn unwrap_value(v: &SqlValue) -> (r: Option<Option<String>>) {
        match v {
            SqlValue::String(s) => match s {
                Some(t) => Some(Some(t.clone())),
                None => Some(None),
            },
            _ => None,
        }
    }

    proof fn lemma_wrap_is_variant(x: Option<String>) {
    }

    proof fn lemma_wrap_injective(a: Option<String>, b: Option<String>) {
    }
}

impl SqlScalar for uuid::Uuid {
    open spec fn spec_wrap(x: Option<uuid::Uuid>) -> SqlValue {
        SqlValue::Uuid(x)
    }

    open spec fn spec_is_variant(v: SqlValue) -> bool {
        v is Uuid
    }

    fn wrap_some(x: &uuid::Uuid) -> (r: SqlValue) {
        SqlValue::Uuid(Some(*x))
    }

    fn wrap_none() -> (r: SqlValue) {
        SqlValue::Uuid(None)
    }

    fn duplicate_scalar(x: &uuid::Uuid) -> (r: uuid::Uuid) {
        *x
    }

    fn unwrap_value(v: &SqlValue) -> (r: Option<Option<uuid::Uuid>>) {
        match v {
            SqlValue::Uuid(u) => Some(*u),
            _ => None,
        }
    }

    proof fn lemma_wrap_is_variant(x: Option<uuid::Uuid>) {
    }

    proof fn lemma_wrap_injective(a: Option<uuid::Uuid>, b: Option<uuid::Uuid>) {
    }
}

impl SqlScalar for chrono::NaiveDateTime {
    open spec fn spec_wrap(x: Option<chrono::NaiveDateTime>) -> SqlValue {
        SqlValue::ChronoDateTime(x)
    }

    open spec fn spec_is_variant(v: SqlValue) -> bool {
        v is ChronoDateTime
    }

    fn wrap_some(x: &chrono::NaiveDateTime) -> (r: SqlValue) {
        SqlValue::ChronoDateTime(Some(*x))
    }

    fn wrap_none() -> (r: SqlValue) {
        SqlValue::ChronoDateTime(None)
    }

    fn duplicate_scalar(x: &chrono::NaiveDateTime) -> (r: chrono::NaiveDateTime) {
        *x
    }

    fn unwrap_value(v: &SqlValue) -> (r: Option<Option<chrono::NaiveDateTime>>) {
        match v {
            SqlValue::ChronoDateTime(d) => Some(*d),
            _ => None,
        }
    }

    proof fn lemma_wrap_is_variant(x: Option<chrono::NaiveDateTime>) {
    }

    proof fn lemma_wrap_injective(a: Option<chrono::NaiveDateTime>, b: Option<chrono::NaiveDateTime>) {
    }
}

impl<T: SqlScalar> SqlType for T {
    open spec fn spec_to_sql(&self) -> SqlValue {
        T::spec_wrap(Some(*self))
    }

    open spec fn spec_accepts(v: SqlValue) -> bool {
        exists|x: T| T::spec_wrap(Some(x)) == v
    }

    fn to_sql(&self) -> (r: SqlValue) {
        T::wrap_some(self)
    }

    fn duplicate(&self) -> (r: T) {
        T::duplicate_scalar(self)
    }

    fn from_sql(v: &SqlValue) -> (r: Option<T>) {
        match T::unwrap_value(v) {
            Some(Some(x)) => Some(x),
            Some(None) => {
                proof {
                    assert forall|x: T| T::spec_wrap(Some(x)) != *v by {
                        // `v` is the NULL of this variant, which no present value is
                        T::lemma_wrap_injective(Some(x), None);
                    }
                }
                None
            },
            None => {
                proof {
                    assert forall|x: T| T::spec_wrap(Some(x)) != *v by {
                        T::lemma_wrap_is_variant(Some(x));
                    }
                }
                None
            },
        }
    }

    proof fn lemma_accepts_own(x: &T) {
    }

    proof fn lemma_to_sql_injective(a: &T, b: &T) {
        T::lemma_wrap_injective(Some(*a), Some(*b));
    }
}

impl<T: SqlScalar> SqlType for Option<T> {
    open spec fn spec_to_sql(&self) -> SqlValue {
        T::spec_wrap(*self)
    }

    open spec fn spec_accepts(v: SqlValue) -> bool {
        T::spec_is_variant(v)
    }

    fn to_sql(&self) -> (r: SqlValue) {
        match self {
            Some(x) => T::wrap_some(x),
            None => T::wrap_none(),
        }
    }

    fn duplicate(&self) -> (r: Option<T>) {
        match self {
            Some(x) => Some(T::duplicate_scalar(x)),
            None => None,
        }
    }

    fn from_sql(v: &SqlValue) -> (r: Option<Option<T>>) {
        T::unwrap_value(v)
    }

    proof fn lemma_accepts_own(x: &Option<T>) {
        T::lemma_wrap_is_variant(*x);
    }

    proof fn lemma_to_sql_injective(a: &Option<T>, b: &Option<T>) {
        T::lemma_wrap_injective(*a, *b);
    }
}

}
