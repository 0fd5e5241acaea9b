use resent::field::{EntField, ReadWrite};
use resent::privacy::{
    AlwaysAllowRule, EntMutationPrivacyRule, EntPrivacyPolicy, EntQueryPrivacyRule,
};
use resent::query::predicate::QueryPredicate as P;
use resent::query::Order;
use resent::{Ent, EntEdge, EntExt, EntOptionalEdge};
use uuid::Uuid;

struct Context;

#[allow(dead_code)]
pub struct EntFoo {
    id: Uuid,
    name: String,
    bar_id: Uuid,
}

pub struct EntFooId;

impl Ent for EntFoo {
    const TABLE_NAME: &'static str = "foo";
    type PrimaryKey = EntFooId;
}

impl EntField for EntFooId {
    const NAME: &'static str = "id";
    type Value = Uuid;
    type Ent = EntFoo;
    type Visibility = ReadWrite;

    fn spec_get_value(ent: &EntFoo) -> Uuid {
        ent.id
    }

    fn get_value(ent: &EntFoo) -> &Uuid {
        &ent.id
    }
}

impl EntPrivacyPolicy<Context> for EntFoo {
    fn query_policy() -> Vec<Box<dyn EntQueryPrivacyRule<Self, Context>>> {
        vec![Box::new(AlwaysAllowRule)]
    }

    fn mutation_policy() -> Vec<Box<dyn EntMutationPrivacyRule<Self, Context>>> {
        vec![Box::new(AlwaysAllowRule)]
    }
}

#[allow(dead_code)]
pub struct EntBar {
    id: Uuid,
    value: String,
}

pub struct EntBarId;
pub struct EntBarValue;

impl Ent for EntBar {
    const TABLE_NAME: &'static str = "bar";
    type PrimaryKey = EntBarId;
}

impl EntField for EntBarId {
    const NAME: &'static str = "id";
    type Value = Uuid;
    type Ent = EntBar;
    type Visibility = ReadWrite;

    fn spec_get_value(ent: &EntBar) -> Uuid {
        ent.id
    }

    fn get_value(ent: &EntBar) -> &Uuid {
        &ent.id
    }
}

impl EntField for EntBarValue {
    const NAME: &'static str = "value";
    type Value = String;
    type Ent = EntBar;
    type Visibility = ReadWrite;

    fn spec_get_value(ent: &EntBar) -> String {
        ent.value.clone()
    }

    fn get_value(ent: &EntBar) -> &String {
        &ent.value
    }
}

impl EntPrivacyPolicy<Context> for EntBar {
    fn query_policy() -> Vec<Box<dyn EntQueryPrivacyRule<Self, Context>>> {
        vec![Box::new(AlwaysAllowRule)]
    }

    fn mutation_policy() -> Vec<Box<dyn EntMutationPrivacyRule<Self, Context>>> {
        vec![Box::new(AlwaysAllowRule)]
    }
}

#[allow(dead_code)]
pub struct EntBaz {
    id: Uuid,
    foo_id: Option<Uuid>,
}

pub struct EntBazId;
pub struct EntBazFooId;

impl Ent for EntBaz {
    const TABLE_NAME: &'static str = "baz";
    type PrimaryKey = EntBazId;
}

impl EntField for EntBazId {
    const NAME: &'static str = "id";
    type Value = Uuid;
    type Ent = EntBaz;
    type Visibility = ReadWrite;

    fn spec_get_value(ent: &EntBaz) -> Uuid {
        ent.id
    }

    fn get_value(ent: &EntBaz) -> &Uuid {
        &ent.id
    }
}

impl EntField for EntBazFooId {
    const NAME: &'static str = "foo_id";
    type Value = Option<Uuid>;
    type Ent = EntBaz;
    type Visibility = ReadWrite;

    fn spec_get_value(ent: &EntBaz) -> Option<Uuid> {
        ent.foo_id
    }

    fn get_value(ent: &EntBaz) -> &Option<Uuid> {
        &ent.foo_id
    }
}

impl EntPrivacyPolicy<Context> for EntBaz {
    fn query_policy() -> Vec<Box<dyn EntQueryPrivacyRule<Self, Context>>> {
        vec![Box::new(AlwaysAllowRule)]
    }

    fn mutation_policy() -> Vec<Box<dyn EntMutationPrivacyRule<Self, Context>>> {
        vec![Box::new(AlwaysAllowRule)]
    }
}

impl EntEdge for EntBazId {
    type TargetField = EntBarId;
}

impl EntOptionalEdge for EntBazFooId {
    type TargetField = EntFooId;
}

#[test]
fn test_ent_schema_derive() {
    let uuid = Uuid::new_v4();

    let select = EntBaz::query().to_select();
    assert_eq!(select.to_postgres(), r#"SELECT * FROM "baz""#);

    let select = EntBaz::query()
        .order_by::<EntBazId>(sea_query::Order::Desc)
        .to_select();
    assert_eq!(
        select.to_postgres(),
        r#"SELECT * FROM "baz" ORDER BY "baz"."id" DESC"#
    );

    let select = EntBaz::query()
        .where_field::<EntBazId>(P::equals(uuid))
        .to_select();
    assert_eq!(
        select.to_postgres(),
        format!(r#"SELECT * FROM "baz" WHERE "baz"."id" = '{}'"#, uuid),
    );

    let select = EntBaz::query().limit(2).to_select();
    assert_eq!(select.to_postgres(), r#"SELECT * FROM "baz" LIMIT 2"#);

    let select = EntBar::query()
        .query_edge_ref::<EntBazId>()
        .where_field::<EntBazId>(P::equals(uuid))
        .to_select();
    assert_eq!(
        select.to_postgres(),
        format!(r#"SELECT * FROM "baz" WHERE "baz"."id" = '{}'"#, uuid),
    );

    let select = EntBar::query()
        .where_field::<EntBarValue>(P::equals("hello".to_string()))
        .query_edge_ref::<EntBazId>()
        .where_field::<EntBazId>(P::equals(uuid))
        .to_select();
    assert_eq!(
        select.to_postgres(),
        format!(
            r#"SELECT * FROM "baz" WHERE "baz"."id" IN (SELECT "bar"."id" FROM "bar" WHERE "bar"."value" = 'hello') AND "baz"."id" = '{}'"#,
            uuid
        ),
    );

    let select = EntBaz::query().join::<EntBazId>().to_select();
    assert_eq!(
        select.to_postgres(),
        r#"SELECT * FROM "baz" INNER JOIN "bar" ON "baz"."id" = "bar"."id""#
    );

    let select = EntBaz::query()
        .join::<EntBazId>()
        .where_field::<EntBarValue, _>(P::equals("hello".to_string()))
        .to_select();
    assert_eq!(
        select.to_postgres(),
        r#"SELECT * FROM "baz" INNER JOIN "bar" ON "baz"."id" = "bar"."id" WHERE "bar"."value" = 'hello'"#
    );

    let select = EntBaz::query()
        .join::<EntBazId>()
        .where_field::<EntBarValue, _>(P::equals("hello".to_string()))
        .where_field::<EntBazId, _>(P::equals(uuid))
        .to_select();
    assert_eq!(
        select.to_postgres(),
        format!(
            r#"SELECT * FROM "baz" INNER JOIN "bar" ON "baz"."id" = "bar"."id" WHERE "bar"."value" = 'hello' AND "baz"."id" = '{}'"#,
            uuid
        )
    );

    let select = EntBaz::query()
        .join::<EntBazId>()
        .where_field::<EntBarValue, _>(P::equals("hello".to_string()))
        .where_field::<EntBazId, _>(P::equals(uuid))
        .order_by::<EntBazId, _>(Order::Asc)
        .to_select();
    assert_eq!(
        select.to_postgres(),
        format!(
            r#"SELECT * FROM "baz" INNER JOIN "bar" ON "baz"."id" = "bar"."id" WHERE "bar"."value" = 'hello' AND "baz"."id" = '{}' ORDER BY "baz"."id" ASC"#,
            uuid
        )
    );
}
