use chrono::NaiveDate;
use resent::cache::EntCache;
use resent::mutator::EntMutationFieldState;
use resent::field::{EntField, ReadOnly, ReadWrite};
use resent::query::edges::{EntWithEdges, Here, There};
use resent::query::predicate::QueryPredicate as P;
use resent::query::Order;
use resent::schema::{
    derive_ent_schema, plan_ent_schema, EntSchemaError, EntStructField, FieldDef, FieldVisibilityKind,
    PrimaryKeyDef,
};
use resent::{Ent, EntEdge, EntExt, EntOptionalEdge};
use sea_query::PostgresQueryBuilder;
use uuid::Uuid;

#[derive(Debug, PartialEq)]
pub struct Author {
    id: i32,
    name: String,
}

pub struct AuthorId;
pub struct AuthorName;

impl Ent for Author {
    const TABLE_NAME: &'static str = "author";
    type PrimaryKey = AuthorId;
}

impl EntField for AuthorId {
    const NAME: &'static str = "id";
    type Value = i32;
    type Ent = Author;
    type Visibility = ReadOnly;

    fn spec_get_value(ent: &Author) -> i32 {
        ent.id
    }

    fn get_value(ent: &Author) -> &i32 {
        &ent.id
    }
}

impl EntField for AuthorName {
    const NAME: &'static str = "name";
    type Value = String;
    type Ent = Author;
    type Visibility = ReadWrite;

    fn spec_get_value(ent: &Author) -> String {
        ent.name.clone()
    }

    fn get_value(ent: &Author) -> &String {
        &ent.name
    }
}

pub struct Post {
    id: i64,
    author_id: i32,
    editor_id: Option<i32>,
    published_at: chrono::NaiveDateTime,
}

pub struct PostId;
pub struct PostAuthorId;
pub struct PostEditorId;
pub struct PostPublishedAt;

impl Ent for Post {
    const TABLE_NAME: &'static str = "post";
    type PrimaryKey = PostId;
}

impl EntField for PostId {
    const NAME: &'static str = "id";
    type Value = i64;
    type Ent = Post;
    type Visibility = ReadOnly;

    fn spec_get_value(ent: &Post) -> i64 {
        ent.id
    }

    fn get_value(ent: &Post) -> &i64 {
        &ent.id
    }
}

impl EntField for PostAuthorId {
    const NAME: &'static str = "author_id";
    type Value = i32;
    type Ent = Post;
    type Visibility = ReadWrite;

    fn spec_get_value(ent: &Post) -> i32 {
        ent.author_id
    }

    fn get_value(ent: &Post) -> &i32 {
        &ent.author_id
    }
}

impl EntField for PostEditorId {
    const NAME: &'static str = "editor_id";
    type Value = Option<i32>;
    type Ent = Post;
    type Visibility = ReadWrite;

    fn spec_get_value(ent: &Post) -> Option<i32> {
        ent.editor_id
    }

    fn get_value(ent: &Post) -> &Option<i32> {
        &ent.editor_id
    }
}

impl EntField for PostPublishedAt {
    const NAME: &'static str = "published_at";
    type Value = chrono::NaiveDateTime;
    type Ent = Post;
    type Visibility = ReadWrite;

    fn spec_get_value(ent: &Post) -> chrono::NaiveDateTime {
        ent.published_at
    }

    fn get_value(ent: &Post) -> &chrono::NaiveDateTime {
        &ent.published_at
    }
}

impl EntEdge for PostAuthorId {
    type TargetField = AuthorId;
}

impl EntOptionalEdge for PostEditorId {
    type TargetField = AuthorId;
}

#[derive(Debug, PartialEq)]
pub struct Membership {
    group_id: Uuid,
    user_id: i32,
}

pub struct MembershipGroupId;
pub struct MembershipUserId;

impl Ent for Membership {
    const TABLE_NAME: &'static str = "membership";
    type PrimaryKey = (MembershipGroupId, MembershipUserId);
}

impl EntField for MembershipGroupId {
    const NAME: &'static str = "group_id";
    type Value = Uuid;
    type Ent = Membership;
    type Visibility = ReadOnly;

    fn spec_get_value(ent: &Membership) -> Uuid {
        ent.group_id
    }

    fn get_value(ent: &Membership) -> &Uuid {
        &ent.group_id
    }
}

impl EntField for MembershipUserId {
    const NAME: &'static str = "user_id";
    type Value = i32;
    type Ent = Membership;
    type Visibility = ReadOnly;

    fn spec_get_value(ent: &Membership) -> i32 {
        ent.user_id
    }

    fn get_value(ent: &Membership) -> &i32 {
        &ent.user_id
    }
}

fn post(editor_id: Option<i32>) -> Post {
    Post {
        id: 10,
        author_id: 3,
        editor_id,
        published_at: NaiveDate::from_ymd_opt(2024, 1, 2)
            .unwrap()
            .and_hms_opt(3, 4, 5)
            .unwrap(),
    }
}

#[test]
fn is_in_list_of_values() {
    let select = Author::query()
        .where_field::<AuthorId>(P::is_in(vec![1, 2, 3]))
        .to_select();
    assert_eq!(
        select.to_postgres(),
        r#"SELECT * FROM "author" WHERE "author"."id" IN (1, 2, 3)"#
    );
}

#[test]
fn is_in_subquery_of_a_projection() {
    let authors = Author::query()
        .where_field::<AuthorName>(P::equals("ann".to_string()))
        .select::<AuthorId>();
    let select = Post::query()
        .where_field::<PostAuthorId>(P::is_in(authors))
        .to_select();
    assert_eq!(
        select.to_postgres(),
        r#"SELECT * FROM "post" WHERE "post"."author_id" IN (SELECT "author"."id" FROM "author" WHERE "author"."name" = 'ann')"#
    );
}

#[test]
fn not_negates_a_predicate() {
    let select = Author::query()
        .where_field::<AuthorName>(P::not(P::equals("ann".to_string())))
        .to_select();
    assert_eq!(
        select.to_postgres(),
        r#"SELECT * FROM "author" WHERE NOT "author"."name" = 'ann'"#
    );
}

#[test]
fn after_compares_date_times() {
    let at = post(None).published_at;
    let select = Post::query()
        .where_field::<PostPublishedAt>(P::after(at))
        .order_by::<PostPublishedAt>(Order::Desc)
        .limit(5)
        .to_select();
    assert_eq!(
        select.to_postgres(),
        r#"SELECT * FROM "post" WHERE "post"."published_at" > '2024-01-02 03:04:05.000000' ORDER BY "post"."published_at" DESC LIMIT 5"#
    );
}

#[test]
fn query_edge_from_an_entity() {
    let p = post(None);
    let select = p.query_edge::<PostAuthorId>().to_select();
    assert_eq!(
        select.to_postgres(),
        r#"SELECT * FROM "author" WHERE "author"."id" = 3"#
    );
}

#[test]
fn query_edge_ref_from_an_entity() {
    let a = Author { id: 3, name: "ann".to_string() };
    let select = a.query_edge_ref::<PostAuthorId>().to_select();
    assert_eq!(
        select.to_postgres(),
        r#"SELECT * FROM "post" WHERE "post"."author_id" = 3"#
    );
}

#[test]
fn query_optional_edge_follows_a_set_edge_only() {
    assert!(post(None).query_optional_edge::<PostEditorId>().is_none());
    let select = post(Some(4))
        .query_optional_edge::<PostEditorId>()
        .unwrap()
        .to_select();
    assert_eq!(
        select.to_postgres(),
        r#"SELECT * FROM "author" WHERE "author"."id" = 4"#
    );
    let a = Author { id: 4, name: "bob".to_string() };
    let select = a.query_optional_edge_ref::<PostEditorId>().to_select();
    assert_eq!(
        select.to_postgres(),
        r#"SELECT * FROM "post" WHERE "post"."editor_id" = 4"#
    );
}

#[test]
fn query_edge_of_a_constrained_query_uses_a_subquery() {
    let select = Post::query()
        .where_field::<PostId>(P::equals(10))
        .query_edge::<PostAuthorId>()
        .to_select();
    assert_eq!(
        select.to_postgres(),
        r#"SELECT * FROM "author" WHERE "author"."id" IN (SELECT "post"."author_id" FROM "post" WHERE "post"."id" = 10)"#
    );
    // an authors' query from every post still keeps only the authors of posts
    let select = Post::query().query_edge::<PostAuthorId>().to_select();
    assert_eq!(
        select.to_postgres(),
        r#"SELECT * FROM "author" WHERE "author"."id" IN (SELECT "post"."author_id" FROM "post")"#
    );
    let select = Author::query().limit(1).query_edge_ref::<PostAuthorId>().to_select();
    assert_eq!(
        select.to_postgres(),
        r#"SELECT * FROM "post" WHERE "post"."author_id" IN (SELECT "author"."id" FROM "author" LIMIT 1)"#
    );
}

#[test]
fn load_query_filters_by_primary_key() {
    let select = Author::load_query(3).to_select();
    assert_eq!(
        select.to_postgres(),
        r#"SELECT * FROM "author" WHERE "author"."id" = 3"#
    );
    let group = Uuid::nil();
    let select = Membership::load_query((group, 9)).to_select();
    assert_eq!(
        select.to_postgres(),
        r#"SELECT * FROM "membership" WHERE "membership"."group_id" = '00000000-0000-0000-0000-000000000000' AND "membership"."user_id" = 9"#
    );
}

#[test]
fn delete_statement_by_primary_key() {
    let a = Author { id: 3, name: "ann".to_string() };
    let (sql, values) = a
        .delete_statement()
        .to_sea_statement()
        .build(PostgresQueryBuilder);
    assert_eq!(sql, r#"DELETE FROM "author" WHERE "author"."id" = $1"#);
    assert_eq!(values.0, vec![sea_query::Value::Int(Some(3))]);
}

#[test]
fn creator_inserts_each_column_once() {
    let insert = Author::create()
        .set::<AuthorId>(1)
        .set::<AuthorName>("first".to_string())
        .set::<AuthorName>("second".to_string())
        .into_insert();
    let (sql, values) = insert
        .to_sea_statement()
        .ok()
        .unwrap()
        .build(PostgresQueryBuilder);
    assert_eq!(
        sql,
        r#"INSERT INTO "author" ("id", "name") VALUES ($1, $2) RETURNING *"#
    );
    assert_eq!(
        values.0,
        vec![
            sea_query::Value::Int(Some(1)),
            sea_query::Value::String(Some("second".to_string()))
        ]
    );
}

#[test]
fn creator_unset_removes_a_column() {
    let insert = Author::create()
        .set::<AuthorId>(1)
        .set::<AuthorName>("x".to_string())
        .unset::<AuthorName>()
        .into_insert();
    let (sql, _) = insert
        .to_sea_statement()
        .ok()
        .unwrap()
        .build(PostgresQueryBuilder);
    assert_eq!(sql, r#"INSERT INTO "author" ("id") VALUES ($1) RETURNING *"#);
}

#[test]
fn join_and_read_the_joined_entity() {
    let select = Post::query()
        .join::<PostAuthorId>()
        .where_field::<AuthorName, _>(P::equals("ann".to_string()))
        .to_select();
    assert_eq!(
        select.to_postgres(),
        r#"SELECT * FROM "post" INNER JOIN "author" ON "post"."author_id" = "author"."id" WHERE "author"."name" = 'ann'"#
    );

    let row = EntWithEdges::new(
        post(None),
        (Author { id: 3, name: "ann".to_string() }, (Author { id: 4, name: "bob".to_string() }, ())),
    );
    let first: &Author = row.edge::<Author, Here>();
    let second: &Author = row.edge::<Author, There<Here>>();
    assert_eq!(first.name, "ann");
    assert_eq!(second.name, "bob");
    assert_eq!(row.ent().id, 10);
    assert_eq!(row.author_id, 3);
}

#[test]
fn cache_gets_what_was_inserted_until_invalidated() {
    let mut cache = EntCache::<Author>::new();
    assert!(cache.get(&3).is_none());
    cache.insert(3, Author { id: 3, name: "ann".to_string() });
    cache.insert(4, Author { id: 4, name: "bob".to_string() });
    assert_eq!(cache.get(&3).map(|a| a.name.as_str()), Some("ann"));
    cache.insert(3, Author { id: 3, name: "ann2".to_string() });
    assert_eq!(cache.get(&3).map(|a| a.name.as_str()), Some("ann2"));
    cache.invalidate(&3);
    assert!(cache.get(&3).is_none());
    assert_eq!(cache.get(&4).map(|a| a.name.as_str()), Some("bob"));
}

#[test]
fn cache_with_a_composite_key() {
    let g1 = Uuid::from_u128(1);
    let g2 = Uuid::from_u128(2);
    let mut cache = EntCache::<Membership>::new();
    cache.insert((g1, 1), Membership { group_id: g1, user_id: 1 });
    cache.insert((g2, 1), Membership { group_id: g2, user_id: 1 });
    assert_eq!(cache.get(&(g1, 1)), Some(&Membership { group_id: g1, user_id: 1 }));
    assert_eq!(cache.get(&(g2, 1)), Some(&Membership { group_id: g2, user_id: 1 }));
    assert!(cache.get(&(g1, 2)).is_none());
    cache.invalidate(&(g1, 1));
    assert!(cache.get(&(g1, 1)).is_none());
    assert!(cache.get(&(g2, 1)).is_some());
}

fn field(ident: &str, readonly: bool, primary_key: bool) -> EntStructField {
    EntStructField { ident: ident.to_string(), readonly, primary_key }
}

#[test]
fn schema_derive_names_the_generated_items() {
    let fields = vec![field("id", true, true), field("bar_id", false, false)];
    let plan = derive_ent_schema("EntFoo", "foo", true, &fields).ok().unwrap();
    assert_eq!(plan.module_name, "ent_foo");
    assert_eq!(plan.table, "foo");
    assert_eq!(plan.fields.len(), 2);
    assert_eq!(plan.fields[0].struct_name, "Id");
    assert_eq!(plan.fields[0].column, "id");
    assert!(plan.fields[0].visibility == FieldVisibilityKind::ReadOnly);
    assert_eq!(plan.fields[1].struct_name, "BarId");
    assert_eq!(plan.fields[1].column, "bar_id");
    assert!(plan.fields[1].visibility == FieldVisibilityKind::ReadWrite);
    match plan.primary_key {
        PrimaryKeyDef::Single(name) => assert_eq!(name, "Id"),
        PrimaryKeyDef::Composite(_) => panic!("expected a single primary key"),
    }
}

#[test]
fn schema_derive_composite_primary_key() {
    let fields = vec![
        field("group_id", true, true),
        field("note", false, false),
        field("user_id", true, true),
    ];
    let plan = derive_ent_schema("Membership", "membership", true, &fields).ok().unwrap();
    assert_eq!(plan.module_name, "membership");
    match plan.primary_key {
        PrimaryKeyDef::Composite(names) => assert_eq!(names, vec!["GroupId", "UserId"]),
        PrimaryKeyDef::Single(_) => panic!("expected a composite primary key"),
    }
}

#[test]
fn schema_derive_requires_a_primary_key() {
    let fields = vec![field("id", false, false)];
    match derive_ent_schema("EntFoo", "foo", true, &fields) {
        Err(e) => {
            assert!(e == EntSchemaError::NoPrimaryKey);
            assert_eq!(e.message(), "At least one field must be marked as primary_key");
        }
        Ok(_) => panic!("expected the derive to refuse the struct"),
    }
}

#[test]
fn schema_derive_requires_named_fields() {
    let fields = vec![field("id", false, true)];
    match derive_ent_schema("EntFoo", "foo", false, &fields) {
        Err(e) => {
            assert!(e == EntSchemaError::NotNamedStruct);
            assert_eq!(
                e.message(),
                "EntSchema can only be derived for structs with named fields"
            );
        }
        Ok(_) => panic!("expected the derive to refuse the struct"),
    }
}

#[derive(Debug, PartialEq)]
pub struct Reading {
    taken_at: chrono::NaiveDateTime,
    value: i64,
}

pub struct ReadingTakenAt;

impl Ent for Reading {
    const TABLE_NAME: &'static str = "reading";
    type PrimaryKey = ReadingTakenAt;
}

impl EntField for ReadingTakenAt {
    const NAME: &'static str = "taken_at";
    type Value = chrono::NaiveDateTime;
    type Ent = Reading;
    type Visibility = ReadOnly;

    fn spec_get_value(ent: &Reading) -> chrono::NaiveDateTime {
        ent.taken_at
    }

    fn get_value(ent: &Reading) -> &chrono::NaiveDateTime {
        &ent.taken_at
    }
}

#[test]
fn cache_keyed_by_date_time() {
    let day = NaiveDate::from_ymd_opt(2024, 5, 6).unwrap();
    let morning = day.and_hms_opt(8, 0, 0).unwrap();
    let evening = day.and_hms_opt(20, 0, 0).unwrap();
    let mut cache = EntCache::<Reading>::new();
    cache.insert(morning, Reading { taken_at: morning, value: 1 });
    assert_eq!(cache.get(&morning).map(|r| r.value), Some(1));
    assert!(cache.get(&evening).is_none());
    cache.insert(evening, Reading { taken_at: evening, value: 2 });
    cache.insert(morning, Reading { taken_at: morning, value: 3 });
    assert_eq!(cache.get(&morning).map(|r| r.value), Some(3));
    assert_eq!(cache.get(&evening).map(|r| r.value), Some(2));
}

#[test]
fn schema_plan_from_given_names() {
    let fields = vec![field("a", false, true), field("b", true, true), field("c", false, false)];
    let defs = vec![
        FieldDef { struct_name: "A".to_string(), column: "a".to_string(), visibility: FieldVisibilityKind::ReadWrite },
        FieldDef { struct_name: "B".to_string(), column: "b".to_string(), visibility: FieldVisibilityKind::ReadOnly },
        FieldDef { struct_name: "C".to_string(), column: "c".to_string(), visibility: FieldVisibilityKind::ReadWrite },
    ];
    let plan = plan_ent_schema("m".to_string(), "t", &fields, defs).ok().unwrap();
    assert_eq!(plan.module_name, "m");
    assert_eq!(plan.table, "t");
    assert_eq!(plan.fields.len(), 3);
    match plan.primary_key {
        PrimaryKeyDef::Composite(names) => assert_eq!(names, vec!["A", "B"]),
        PrimaryKeyDef::Single(_) => panic!("expected a composite primary key"),
    }
    let fields = vec![field("c", false, false)];
    let defs = vec![FieldDef { struct_name: "C".to_string(), column: "c".to_string(), visibility: FieldVisibilityKind::ReadWrite }];
    assert!(matches!(plan_ent_schema("m".to_string(), "t", &fields, defs), Err(EntSchemaError::NoPrimaryKey)));
}

#[test]
fn mutation_set_overwrites_and_renders_one_assignment() {
    let a = Author { id: 3, name: "ann".to_string() };
    let mut m = a.mutate();
    m.set::<AuthorName>("bob".to_string());
    m.set::<AuthorName>("cat".to_string());
    match m.get::<AuthorName>().new {
        EntMutationFieldState::SetTo(v) => assert_eq!(v, "cat"),
        EntMutationFieldState::Unset => panic!("expected the field to be set"),
    }
    assert_eq!(m.ent().name, "ann");
    let (sql, values) = m.into_update().to_sea_statement().build(PostgresQueryBuilder);
    assert_eq!(sql, r#"UPDATE "author" SET "name" = $1 WHERE "author"."id" = $2"#);
    assert_eq!(
        values.0,
        vec![
            sea_query::Value::String(Some("cat".to_string())),
            sea_query::Value::Int(Some(3))
        ]
    );
}

#[test]
fn downcast_after_join_reads_from_the_base_table() {
    let select = Post::query()
        .join::<PostAuthorId>()
        .where_field::<AuthorName, _>(P::equals("ann".to_string()))
        .downcast::<Author, _>()
        .to_select();
    assert_eq!(
        select.to_postgres(),
        r#"SELECT * FROM "post" INNER JOIN "author" ON "post"."author_id" = "author"."id" WHERE "author"."name" = 'ann'"#
    );
}
