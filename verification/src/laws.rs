//! Properties of the library that relate several of its operations.
use vstd::prelude::*;

use crate::cache::{cache_key, EntCache};
use crate::creator::EntCreator;
use crate::field::EntField;
use crate::mutator::EntMutator;
use crate::primary_key::EntPrimaryKey;
use crate::privacy::{policy_allows, PolicyKind, PrivacyRuleOutcome};
use crate::query::loader::EntLoader;
use crate::render::{
    sea_big_int_val, sea_bool_val, sea_int_val, sea_naive_date_time_val, sea_select_and_where_of,
    sea_select_limit_of, sea_select_offset_of, sea_select_order_by_of, spec_select_head,
    sea_eq_of, sea_gt_of, sea_not_of, sea_and_of, sea_is_in_of, sea_in_subquery_of, sea_column_of,
    sea_select_all_of, sea_select_column_of, sea_select_from_table, sea_select_inner_join_of,
    sea_equals_column_of, spec_select_joins, spec_sea_values, sea_insert_returning_all_of,
    sea_insert_values_of, sea_insert_columns_of, sea_insert_into, spec_sea_insert, spec_sea_delete,
    sea_delete_cond_where_of, sea_delete_from,
    sea_string_val, sea_update_and_where_of, sea_update_for_table, sea_update_value_of,
    sea_uuid_val, opt_text, spec_sea_expr, spec_sea_select, spec_sea_update, spec_sea_value,
    spec_select_filters, spec_update_values,
};
use crate::statement::{holds_on, DeleteSpec, InsertSpec, JoinDef, SelectSpec, SqlExpr, UpdateSpec};
use crate::value::{SqlType, SqlValue};
use crate::Ent;

verus! {

/// After `set::<TField>(value)`, the mutation holds `value` for the field:
/// `get::<TField>()` may be called and reports it as set, to `value` itself.
pub proof fn law_mutation_set_then_get<'a, TEnt: Ent, TField: EntField<Ent = TEnt>>(
    before: EntMutator<'a, TEnt>,
    after: EntMutator<'a, TEnt>,
    value: TField::Value,
)
    requires
        after.spec_mutations() == before.spec_mutations().insert(
            TField::NAME@,
            value.spec_to_sql(),
        ),
    ensures
        after.spec_mutations().contains_key(TField::NAME@),
        after.spec_mutations()[TField::NAME@] == value.spec_to_sql(),
        TField::Value::spec_accepts(after.spec_mutations()[TField::NAME@]),
        // so `get::<TField>()` reports exactly `value`
        forall|x: TField::Value| #[trigger] x.spec_to_sql() == after.spec_mutations()[TField::NAME@] ==> x == value,
{
    TField::Value::lemma_accepts_own(&value);
    assert forall|x: TField::Value| #[trigger] x.spec_to_sql() == after.spec_mutations()[TField::NAME@] implies x == value by {
        TField::Value::lemma_to_sql_injective(&x, &value);
    }
}

/// After `unset::<TField>()`, the mutation does not change the field:
/// `get::<TField>()` reports it as unset.
pub proof fn law_mutation_unset_then_get<'a, TEnt: Ent, TField: EntField<Ent = TEnt>>(
    before: EntMutator<'a, TEnt>,
    after: EntMutator<'a, TEnt>,
)
    requires
        after.spec_mutations() == before.spec_mutations().remove(TField::NAME@),
    ensures
        !after.spec_mutations().contains_key(TField::NAME@),
{
}

/// A later `set` of a field replaces the earlier one in a mutation, and
/// leaves the other fields as they were.
pub proof fn law_mutation_set_overwrites<'a, TEnt: Ent, TField: EntField<Ent = TEnt>>(
    start: EntMutator<'a, TEnt>,
    middle: EntMutator<'a, TEnt>,
    end: EntMutator<'a, TEnt>,
    first: TField::Value,
    second: TField::Value,
)
    requires
        middle.spec_mutations() == start.spec_mutations().insert(TField::NAME@, first.spec_to_sql()),
        end.spec_mutations() == middle.spec_mutations().insert(TField::NAME@, second.spec_to_sql()),
    ensures
        end.spec_mutations() == start.spec_mutations().insert(TField::NAME@, second.spec_to_sql()),
        forall|column: Seq<char>|
            column != TField::NAME@ ==> (#[trigger] end.spec_mutations().contains_key(column)
                == start.spec_mutations().contains_key(column) && (
            start.spec_mutations().contains_key(column) ==> end.spec_mutations()[column]
                == start.spec_mutations()[column])),
{
    assert(end.spec_mutations() =~= start.spec_mutations().insert(
        TField::NAME@,
        second.spec_to_sql(),
    ));
}

/// `unset` after `set` of a field that the mutation did not change leaves the
/// mutation as it was.
pub proof fn law_mutation_unset_undoes_set<'a, TEnt: Ent, TField: EntField<Ent = TEnt>>(
    start: EntMutator<'a, TEnt>,
    middle: EntMutator<'a, TEnt>,
    end: EntMutator<'a, TEnt>,
    value: TField::Value,
)
    requires
        !start.spec_mutations().contains_key(TField::NAME@),
        middle.spec_mutations() == start.spec_mutations().insert(TField::NAME@, value.spec_to_sql()),
        end.spec_mutations() == middle.spec_mutations().remove(TField::NAME@),
    ensures
        end.spec_mutations() == start.spec_mutations(),
{
    assert(end.spec_mutations() =~= start.spec_mutations());
}

/// A later `set` of a field replaces the earlier one in a creation.
pub proof fn law_creation_set_overwrites<TEnt: Ent, TField: EntField<Ent = TEnt>>(
    start: EntCreator<TEnt>,
    middle: EntCreator<TEnt>,
    end: EntCreator<TEnt>,
    first: TField::Value,
    second: TField::Value,
)
    requires
        middle.spec_values() == start.spec_values().insert(TField::NAME@, first.spec_to_sql()),
        end.spec_values() == middle.spec_values().insert(TField::NAME@, second.spec_to_sql()),
    ensures
        end.spec_values() == start.spec_values().insert(TField::NAME@, second.spec_to_sql()),
{
    assert(end.spec_values() =~= start.spec_values().insert(TField::NAME@, second.spec_to_sql()));
}

/// `unset` after `set` of a field that the creation did not give leaves the
/// creation as it was.
pub proof fn law_creation_unset_undoes_set<TEnt: Ent, TField: EntField<Ent = TEnt>>(
    start: EntCreator<TEnt>,
    middle: EntCreator<TEnt>,
    end: EntCreator<TEnt>,
    value: TField::Value,
)
    requires
        !start.spec_values().contains_key(TField::NAME@),
        middle.spec_values() == start.spec_values().insert(TField::NAME@, value.spec_to_sql()),
        end.spec_values() == middle.spec_values().remove(TField::NAME@),
    ensures
        end.spec_values() == start.spec_values(),
{
    assert(end.spec_values() =~= start.spec_values());
}

/// `get` after `insert` of a key gives the entity inserted.
pub proof fn law_cache_get_after_insert<TEnt: Ent>(
    before: EntCache<TEnt>,
    after: EntCache<TEnt>,
    pk: <TEnt::PrimaryKey as EntPrimaryKey<TEnt>>::Value,
    ent: TEnt,
)
    requires
        after.spec_entries() == before.spec_entries().insert(cache_key::<TEnt>(&pk), ent),
    ensures
        after.spec_entries().contains_key(cache_key::<TEnt>(&pk)),
        after.spec_entries()[cache_key::<TEnt>(&pk)] == ent,
{
}

/// `get` after `invalidate` of a key finds nothing; other keys keep their entities.
pub proof fn law_cache_get_after_invalidate<TEnt: Ent>(
    before: EntCache<TEnt>,
    after: EntCache<TEnt>,
    pk: <TEnt::PrimaryKey as EntPrimaryKey<TEnt>>::Value,
    other: <TEnt::PrimaryKey as EntPrimaryKey<TEnt>>::Value,
)
    requires
        after.spec_entries() == before.spec_entries().remove(cache_key::<TEnt>(&pk)),
        cache_key::<TEnt>(&other) != cache_key::<TEnt>(&pk),
    ensures
        !after.spec_entries().contains_key(cache_key::<TEnt>(&pk)),
        after.spec_entries().contains_key(cache_key::<TEnt>(&other)) == before.spec_entries().contains_key(cache_key::<TEnt>(&other)),
        before.spec_entries().contains_key(cache_key::<TEnt>(&other)) ==> after.spec_entries()[cache_key::<TEnt>(&other)] == before.spec_entries()[cache_key::<TEnt>(&other)],
{
}

/// Rules that skip, then `Allow` or `Deny`, then anything: the query policy's
/// verdict is that of the first rule that did not skip.
pub proof fn law_query_policy_first_decisive_rule_wins(
    skips: Seq<PrivacyRuleOutcome>,
    decisive: PrivacyRuleOutcome,
    rest: Seq<PrivacyRuleOutcome>,
)
    requires
        forall|i: int| 0 <= i < skips.len() ==> skips[i] == PrivacyRuleOutcome::Skip,
        decisive != PrivacyRuleOutcome::Skip,
    ensures
        policy_allows(PolicyKind::Query, skips.push(decisive) + rest) == (decisive
            == PrivacyRuleOutcome::Allow),
    decreases skips.len(),
{
    let all = skips.push(decisive) + rest;
    if skips.len() == 0 {
        assert(all[0] == decisive);
    } else {
        assert(all.drop_first() =~= skips.drop_first().push(decisive) + rest);
        law_query_policy_first_decisive_rule_wins(skips.drop_first(), decisive, rest);
    }
}

/// A query policy whose rules all skip, or that has no rules, lets no entity through.
pub proof fn law_query_policy_all_skip_denies(outcomes: Seq<PrivacyRuleOutcome>)
    requires
        forall|i: int| 0 <= i < outcomes.len() ==> outcomes[i] == PrivacyRuleOutcome::Skip,
    ensures
        !policy_allows(PolicyKind::Query, outcomes),
    decreases outcomes.len(),
{
    if outcomes.len() > 0 {
        law_query_policy_all_skip_denies(outcomes.drop_first());
    }
}

/// A mutation policy refuses exactly when one of its rules denies: an
/// `Allow` does not stop a later `Deny`, and all skips let the mutation through.
pub proof fn law_mutation_policy_refused_iff_a_rule_denies(
    outcomes: Seq<PrivacyRuleOutcome>,
    i: int,
)
    requires
        0 <= i < outcomes.len(),
    ensures
        outcomes[i] == PrivacyRuleOutcome::Deny ==> !policy_allows(PolicyKind::Mutation, outcomes),
        (forall|j: int| 0 <= j < outcomes.len() ==> outcomes[j] != PrivacyRuleOutcome::Deny)
            ==> policy_allows(PolicyKind::Mutation, outcomes),
{
}

/// A load never keeps more entities than its limit.
pub proof fn law_load_within_limit(loader: EntLoader, limit: usize)
    requires
        loader.wf(),
        loader.limit == Some(limit),
    ensures
        loader.kept <= limit,
{
}

/// Filters of two statements whose filters agree on a prefix are added
/// alike up to it.
proof fn lemma_filters_prefix(a: SelectSpec, b: SelectSpec, st: sea_query::SelectStatement, k: int)
    requires
        0 <= k <= a.filters@.len(),
        k <= b.filters@.len(),
        forall|i: int| 0 <= i < k ==> a.filters@[i] == b.filters@[i],
    ensures
        spec_select_filters(a, st, k) == spec_select_filters(b, st, k),
    decreases k,
{
    if k > 0 {
        lemma_filters_prefix(a, b, st, k - 1);
    }
}

/// `s` with the limit, offset and order given.
pub open spec fn with_tail(
    s: SelectSpec,
    limit: Option<u64>,
    offset: Option<u64>,
    order: Option<(&'static str, &'static str, sea_query::Order)>,
) -> SelectSpec {
    SelectSpec {
        table: s.table,
        column: s.column,
        joins: s.joins,
        filters: s.filters,
        limit,
        offset,
        order,
    }
}

/// `s` and `with_tail(s, ..)` have the same statement up to their filters.
proof fn lemma_same_filtered(s: SelectSpec, t: SelectSpec)
    requires
        t.table == s.table,
        t.column == s.column,
        t.joins == s.joins,
        t.filters == s.filters,
    ensures
        spec_select_filters(t, spec_select_head(t), t.filters@.len() as int) == spec_select_filters(
            s,
            spec_select_head(s),
            s.filters@.len() as int,
        ),
{
    assert(spec_select_head(t) == spec_select_head(s));
    lemma_filters_prefix(t, s, spec_select_head(s), s.filters@.len() as int);
}

/// Giving a `SELECT` an order adds `ORDER BY` that column, in that
/// direction, after everything else.
pub proof fn law_select_order_is_rendered(
    s: SelectSpec,
    table: &'static str,
    column: &'static str,
    order: sea_query::Order,
)
    requires
        s.order is None,
    ensures
        spec_sea_select(with_tail(s, s.limit, s.offset, Some((table, column, order))))
            == sea_select_order_by_of(spec_sea_select(s), table@, column@, order),
{
    lemma_same_filtered(s, with_tail(s, s.limit, s.offset, Some((table, column, order))));
}

/// Giving a `SELECT` an offset `o` adds `OFFSET o` to its statement, before
/// its order and after everything else: the statement of a later page is
/// the statement of the first page with `OFFSET o`, so it skips the first
/// `o` rows.
pub proof fn law_select_offset_is_rendered(s: SelectSpec, o: u64)
    requires
        s.offset is None,
    ensures
        s.order is None ==> spec_sea_select(with_tail(s, s.limit, Some(o), s.order))
            == sea_select_offset_of(spec_sea_select(s), o),
        s.order matches Some((t, c, ord)) ==> spec_sea_select(
            with_tail(s, s.limit, Some(o), s.order),
        ) == sea_select_order_by_of(
            sea_select_offset_of(spec_sea_select(with_tail(s, s.limit, None, None)), o),
            t@,
            c@,
            ord,
        ),
{
    lemma_same_filtered(s, with_tail(s, s.limit, Some(o), s.order));
    lemma_same_filtered(s, with_tail(s, s.limit, None, None));
}

/// Giving a `SELECT` without offset or order a limit `l` adds `LIMIT l`
/// after everything else.
pub proof fn law_select_limit_is_rendered(s: SelectSpec, l: u64)
    requires
        s.limit is None,
        s.offset is None,
        s.order is None,
    ensures
        spec_sea_select(with_tail(s, Some(l), None, None)) == sea_select_limit_of(
            spec_sea_select(s),
            l,
        ),
{
    lemma_same_filtered(s, with_tail(s, Some(l), None, None));
}

/// One more filter `e` on a `SELECT` without limit, offset or order adds
/// `e` to its `WHERE` by `AND`, after the earlier filters.
pub proof fn law_select_filter_is_rendered(s: SelectSpec, t: SelectSpec, e: SqlExpr)
    requires
        t.table == s.table,
        t.column == s.column,
        t.joins == s.joins,
        t.filters@ == s.filters@.push(e),
        s.limit is None && s.offset is None && s.order is None,
        t.limit is None && t.offset is None && t.order is None,
    ensures
        spec_sea_select(t) == sea_select_and_where_of(spec_sea_select(s), spec_sea_expr(e)),
{
    let n = s.filters@.len() as int;
    assert(spec_select_head(t) == spec_select_head(s));
    lemma_filters_prefix(t, s, spec_select_head(s), n);
    assert(t.filters@[n] == e);
}

/// Assignments of two `UPDATE`s whose values agree on a prefix agree up to it.
proof fn lemma_update_prefix(
    st: sea_query::UpdateStatement,
    a: Seq<(&'static str, SqlValue)>,
    b: Seq<(&'static str, SqlValue)>,
    k: int,
)
    requires
        0 <= k <= a.len(),
        k <= b.len(),
        forall|i: int| 0 <= i < k ==> a[i] == b[i],
    ensures
        spec_update_values(st, a, k) == spec_update_values(st, b, k),
    decreases k,
{
    if k > 0 {
        lemma_update_prefix(st, a, b, k - 1);
    }
}

/// One more value `(column, value)` in an `UPDATE` adds exactly one
/// assignment to its statement, after the others: `column` set to the
/// sea-query value of `value`. So every column is set under its own name,
/// to its own value, in order.
pub proof fn law_update_assigns_each_column(
    u: UpdateSpec,
    w: UpdateSpec,
    column: &'static str,
    value: SqlValue,
)
    requires
        w.table == u.table,
        w.condition == u.condition,
        w.values@ == u.values@.push((column, value)),
    ensures
        exists|st: sea_query::UpdateStatement|
            spec_sea_update(u) == sea_update_and_where_of(st, spec_sea_expr(u.condition))
                && spec_sea_update(w) == sea_update_and_where_of(
                sea_update_value_of(st, column@, spec_sea_value(value)),
                spec_sea_expr(u.condition),
            ),
        // an `UPDATE` without values assigns nothing
        u.values@.len() == 0 ==> spec_sea_update(u) == sea_update_and_where_of(
            sea_update_for_table(u.table@),
            spec_sea_expr(u.condition),
        ),
{
    let st0 = sea_update_for_table(u.table@);
    let n = u.values@.len() as int;
    lemma_update_prefix(st0, u.values@, w.values@, n);
    let st = spec_update_values(st0, u.values@, n);
    assert(w.values@[n] == (column, value));
    assert(spec_sea_update(w) == sea_update_and_where_of(
        sea_update_value_of(st, column@, spec_sea_value(value)),
        spec_sea_expr(u.condition),
    ));
}

/// The sea-query value of a value holds the same contents: sea-query's
/// `Expr::val` of the variant's own contents, unchanged.
pub proof fn law_sea_value_keeps_contents(v: SqlValue)
    ensures
        v matches SqlValue::Bool(b) ==> spec_sea_value(v) == sea_bool_val(b),
        v matches SqlValue::Int(i) ==> spec_sea_value(v) == sea_int_val(i),
        v matches SqlValue::BigInt(i) ==> spec_sea_value(v) == sea_big_int_val(i),
        v matches SqlValue::String(t) ==> spec_sea_value(v) == sea_string_val(opt_text(t)),
        v matches SqlValue::Uuid(x) ==> spec_sea_value(v) == sea_uuid_val(x),
        v matches SqlValue::ChronoDateTime(d) ==> spec_sea_value(v) == sea_naive_date_time_val(d),
{
}

/// Different primary-key values of a one-field key have different keys, so
/// the cache keeps an entity per value.
pub proof fn law_field_key_injective<TEnt: Ent, TField: EntField<Ent = TEnt>>(
    a: TField::Value,
    b: TField::Value,
)
    ensures
        <TField as EntPrimaryKey<TEnt>>::spec_key(&a) == <TField as EntPrimaryKey<TEnt>>::spec_key(&b)
            ==> a == b,
{
    if <TField as EntPrimaryKey<TEnt>>::spec_key(&a) == <TField as EntPrimaryKey<TEnt>>::spec_key(&b) {
        assert(<TField as EntPrimaryKey<TEnt>>::spec_key(&a)[0] == a.spec_to_sql());
        assert(<TField as EntPrimaryKey<TEnt>>::spec_key(&b)[0] == b.spec_to_sql());
        TField::Value::lemma_to_sql_injective(&a, &b);
    }
}

/// Different primary-key values of a two-field key have different keys.
pub proof fn law_pair_key_injective<
    TEnt: Ent,
    T1: EntField<Ent = TEnt>,
    T2: EntField<Ent = TEnt>,
>(a: (T1::Value, T2::Value), b: (T1::Value, T2::Value))
    ensures
        <(T1, T2) as EntPrimaryKey<TEnt>>::spec_key(&a) == <(T1, T2) as EntPrimaryKey<TEnt>>::spec_key(&b)
            ==> a == b,
{
    if <(T1, T2) as EntPrimaryKey<TEnt>>::spec_key(&a) == <(T1, T2) as EntPrimaryKey<TEnt>>::spec_key(&b) {
        let ka = <(T1, T2) as EntPrimaryKey<TEnt>>::spec_key(&a);
        let kb = <(T1, T2) as EntPrimaryKey<TEnt>>::spec_key(&b);
        assert(ka[0] == kb[0] && ka[1] == kb[1]);
        T1::Value::lemma_to_sql_injective(&a.0, &b.0);
        T2::Value::lemma_to_sql_injective(&a.1, &b.1);
    }
}

/// Different primary-key values of a three-field key have different keys.
pub proof fn law_triple_key_injective<
    TEnt: Ent,
    T1: EntField<Ent = TEnt>,
    T2: EntField<Ent = TEnt>,
    T3: EntField<Ent = TEnt>,
>(a: (T1::Value, T2::Value, T3::Value), b: (T1::Value, T2::Value, T3::Value))
    ensures
        <(T1, T2, T3) as EntPrimaryKey<TEnt>>::spec_key(&a) == <(
            T1,
            T2,
            T3,
        ) as EntPrimaryKey<TEnt>>::spec_key(&b) ==> a == b,
{
    let ka = <(T1, T2, T3) as EntPrimaryKey<TEnt>>::spec_key(&a);
    let kb = <(T1, T2, T3) as EntPrimaryKey<TEnt>>::spec_key(&b);
    if ka == kb {
        assert(ka[0] == kb[0] && ka[1] == kb[1] && ka[2] == kb[2]);
        T1::Value::lemma_to_sql_injective(&a.0, &b.0);
        T2::Value::lemma_to_sql_injective(&a.1, &b.1);
        T3::Value::lemma_to_sql_injective(&a.2, &b.2);
    }
}

/// The condition of a one-field primary key holds of exactly the rows whose
/// key column has the key's value.
pub proof fn law_field_key_condition<TEnt: Ent, TField: EntField<Ent = TEnt>>(
    value: TField::Value,
    row: spec_fn(&'static str, &'static str) -> SqlValue,
)
    ensures
        holds_on(<TField as EntPrimaryKey<TEnt>>::spec_as_expr(value), row) <==> row(
            TEnt::TABLE_NAME,
            TField::NAME,
        ) == value.spec_to_sql(),
{
}

/// The condition of a two-field primary key holds of exactly the rows whose
/// two key columns have the key's two values.
pub proof fn law_pair_key_condition<
    TEnt: Ent,
    T1: EntField<Ent = TEnt>,
    T2: EntField<Ent = TEnt>,
>(value: (T1::Value, T2::Value), row: spec_fn(&'static str, &'static str) -> SqlValue)
    ensures
        holds_on(<(T1, T2) as EntPrimaryKey<TEnt>>::spec_as_expr(value), row) <==> (row(
            TEnt::TABLE_NAME,
            T1::NAME,
        ) == value.0.spec_to_sql() && row(TEnt::TABLE_NAME, T2::NAME) == value.1.spec_to_sql()),
{
    reveal_with_fuel(holds_on, 2);
}

/// The condition of a three-field primary key holds of exactly the rows
/// whose three key columns have the key's three values.
pub proof fn law_triple_key_condition<
    TEnt: Ent,
    T1: EntField<Ent = TEnt>,
    T2: EntField<Ent = TEnt>,
    T3: EntField<Ent = TEnt>,
>(
    value: (T1::Value, T2::Value, T3::Value),
    row: spec_fn(&'static str, &'static str) -> SqlValue,
)
    ensures
        holds_on(<(T1, T2, T3) as EntPrimaryKey<TEnt>>::spec_as_expr(value), row) <==> (row(
            TEnt::TABLE_NAME,
            T1::NAME,
        ) == value.0.spec_to_sql() && row(TEnt::TABLE_NAME, T2::NAME) == value.1.spec_to_sql()
            && row(TEnt::TABLE_NAME, T3::NAME) == value.2.spec_to_sql()),
{
    reveal_with_fuel(holds_on, 3);
}

/// Each form of condition is rendered by the sea-query operation of that
/// form, on the qualified column and on the sea-query value of its value,
/// its parts in place.
pub proof fn law_sea_expr_shapes(e: SqlExpr)
    ensures
        e matches SqlExpr::Equals { table, column, value } ==> spec_sea_expr(e) == sea_eq_of(
            sea_column_of(table@, column@),
            spec_sea_value(value),
        ),
        e matches SqlExpr::GreaterThan { table, column, value } ==> spec_sea_expr(e) == sea_gt_of(
            sea_column_of(table@, column@),
            spec_sea_value(value),
        ),
        e matches SqlExpr::Not(inner) ==> spec_sea_expr(e) == sea_not_of(spec_sea_expr(*inner)),
        e matches SqlExpr::And(l, r) ==> spec_sea_expr(e) == sea_and_of(
            spec_sea_expr(*l),
            spec_sea_expr(*r),
        ),
        e matches SqlExpr::InValues { table, column, values } ==> exists|vs: Seq<sea_query::Expr>|
            vs.len() == values@.len() && (forall|i: int|
                0 <= i < vs.len() ==> vs[i] == spec_sea_value(#[trigger] values@[i]))
                && spec_sea_expr(e) == sea_is_in_of(sea_column_of(table@, column@), vs),
        e matches SqlExpr::InSubquery { table, column, subquery } ==> spec_sea_expr(e)
            == sea_in_subquery_of(sea_column_of(table@, column@), spec_sea_select(*subquery)),
{
    if let SqlExpr::InValues { table, column, values } = e {
        let vs = spec_sea_values(values@);
        assert(vs.len() == values@.len());
        assert(spec_sea_expr(e) == sea_is_in_of(sea_column_of(table@, column@), vs));
    }
}

/// A `SELECT` with no join, filter, limit, offset or order reads its
/// table: `*` or the one column it selects, `FROM` the table.
pub proof fn law_select_reads_table(s: SelectSpec)
    requires
        s.joins@.len() == 0,
        s.filters@.len() == 0,
        s.limit is None && s.offset is None && s.order is None,
    ensures
        s.column is None ==> spec_sea_select(s) == sea_select_all_of(sea_select_from_table(s.table@)),
        s.column matches Some((t, c)) ==> spec_sea_select(s) == sea_select_column_of(
            sea_select_from_table(s.table@),
            t@,
            c@,
        ),
{
}

/// Joins of two statements whose joins agree on a prefix are added alike up to it.
proof fn lemma_joins_prefix(
    st: sea_query::SelectStatement,
    a: Seq<JoinDef>,
    b: Seq<JoinDef>,
    k: int,
)
    requires
        0 <= k <= a.len(),
        k <= b.len(),
        forall|i: int| 0 <= i < k ==> a[i] == b[i],
    ensures
        spec_select_joins(st, a, k) == spec_select_joins(st, b, k),
    decreases k,
{
    if k > 0 {
        lemma_joins_prefix(st, a, b, k - 1);
    }
}

/// One more join `j` on a `SELECT` without filter, limit, offset or order
/// adds an inner join of `j.table` on `left_table.left_col =
/// right_table.right_col`, after the earlier joins.
pub proof fn law_select_join_is_rendered(s: SelectSpec, t: SelectSpec, j: JoinDef)
    requires
        t.table == s.table,
        t.column == s.column,
        t.joins@ == s.joins@.push(j),
        s.filters@.len() == 0 && t.filters@.len() == 0,
        s.limit is None && s.offset is None && s.order is None,
        t.limit is None && t.offset is None && t.order is None,
    ensures
        spec_sea_select(t) == sea_select_inner_join_of(
            spec_sea_select(s),
            j.table@,
            sea_equals_column_of(
                sea_column_of(j.left_table@, j.left_col@),
                j.right_table@,
                j.right_col@,
            ),
        ),
{
    let st = match s.column {
        Some((tb, c)) => sea_select_column_of(sea_select_from_table(s.table@), tb@, c@),
        None => sea_select_all_of(sea_select_from_table(s.table@)),
    };
    let n = s.joins@.len() as int;
    lemma_joins_prefix(st, s.joins@, t.joins@, n);
    assert(t.joins@[n] == j);
}

/// An `INSERT` names each column of its values and gives each its own
/// value, in the same position: the columns are the values' columns in
/// order, and the row is their sea-query values in the same order.
pub proof fn law_insert_pairs_columns_with_values(i: InsertSpec)
    ensures
        exists|cols: Seq<Seq<char>>, vals: Seq<sea_query::Expr>|
            {
                &&& cols.len() == i.values@.len()
                &&& vals.len() == i.values@.len()
                &&& forall|k: int| 0 <= k < cols.len() ==> cols[k] == (#[trigger] i.values@[k]).0@
                &&& forall|k: int| 0 <= k < vals.len() ==> vals[k] == spec_sea_value(
                    (#[trigger] i.values@[k]).1,
                )
                &&& spec_sea_insert(i) == sea_insert_returning_all_of(
                    sea_insert_values_of(sea_insert_columns_of(sea_insert_into(i.table@), cols), vals),
                )
            },
{
    let cols = i.values@.map_values(|e: (&'static str, SqlValue)| e.0@);
    let vals = i.values@.map_values(|e: (&'static str, SqlValue)| spec_sea_value(e.1));
    assert(spec_sea_insert(i) == sea_insert_returning_all_of(
        sea_insert_values_of(sea_insert_columns_of(sea_insert_into(i.table@), cols), vals),
    ));
}

/// A `DELETE` deletes from its table the rows its condition selects.
pub proof fn law_delete_renders_table_and_condition(d: DeleteSpec)
    ensures
        spec_sea_delete(d) == sea_delete_cond_where_of(
            sea_delete_from(d.table@),
            spec_sea_expr(d.condition),
        ),
{
}

} // verus!
