# resent

An entity framework for PostgreSQL with privacy policies, verified with Verus.

Entities are Rust structs stored as rows of a table. Queries are built step by
step (filters, joins, limits, order, edges to related entities) and turned into
SQL by sea-query. Every entity has a query policy and a mutation policy, lists
of rules that allow, deny or skip; loads keep only the rows the query policy
allows, and mutations are refused as soon as a rule denies.

## Layout

- `src/` – the verified library.
  - `statement.rs` – statements as plain values; `render.rs` turns them into
    sea-query statements and SQL.
  - `query/` – query building (`ent.rs`, `edges.rs`, `projection.rs`),
    field predicates (`predicate/`), and the loader (`loader.rs`): the state
    machine that decides, row by row and rule by rule, what a load keeps and
    when it fetches the next page.
  - `privacy.rs` – rules, policies, and the evaluation of a policy one rule
    at a time.
  - `mutator.rs`, `creator.rs`, `assignments.rs` – mutations and creations.
  - `cache.rs` – the per-type cache of loaded entities.
  - `schema.rs` – what the `EntSchema` derive generates for a struct.
  - `laws.rs` – properties that relate several operations.
- `app/` – the database side: running statements on a `sqlx` pool, driving
  the loader and the policy evaluation with what the database returns, the
  cache registry shared between tasks, and the error types with messages.
- `tests/` – tests of the library.
