use resent::field::{EntField, ReadOnly, ReadWrite};
use resent::mutator::EntMutationFieldState;
use resent::{Ent, EntExt};

pub struct TestEnt {
    id: i32,
    value: String,
}

pub struct TestEntId;
pub struct TestEntValue;

impl Ent for TestEnt {
    const TABLE_NAME: &'static str = "test_ent";
    type PrimaryKey = TestEntId;
}

impl EntField for TestEntId {
    const NAME: &'static str = "id";
    type Value = i32;
    type Ent = TestEnt;
    type Visibility = ReadOnly;

    fn spec_get_value(ent: &TestEnt) -> i32 {
        ent.id
    }

    fn get_value(ent: &TestEnt) -> &i32 {
        &ent.id
    }
}

impl EntField for TestEntValue {
    const NAME: &'static str = "value";
    type Value = String;
    type Ent = TestEnt;
    type Visibility = ReadWrite;

    fn spec_get_value(ent: &TestEnt) -> String {
        ent.value.clone()
    }

    fn get_value(ent: &TestEnt) -> &String {
        &ent.value
    }
}

#[test]
fn test_ent_mutation_field_state() {
    let ent = TestEnt {
        id: 1,
        value: "hello".to_string(),
    };

    let mut mutator = ent.mutate();
    assert_eq!(mutator.get::<TestEntId>().old, &1);

    mutator.set::<TestEntValue>("world".to_string());
    assert_eq!(mutator.get::<TestEntValue>().old, "hello");
    match mutator.get::<TestEntValue>().new {
        EntMutationFieldState::SetTo(new_value) => assert_eq!(new_value, "world"),
        _ => panic!("Expected ValueField to be set"),
    }

    mutator.unset::<TestEntValue>();
    assert_eq!(mutator.get::<TestEntValue>().old, "hello");
    match mutator.get::<TestEntValue>().new {
        EntMutationFieldState::Unset => (),
        _ => panic!("Expected ValueField to be unset"),
    }
}

#[test]
fn test_ent_mutator_into_update_statement() {
    let ent = TestEnt {
        id: 1,
        value: "hello".to_string(),
    };

    let mut mutator = ent.mutate();
    mutator.set::<TestEntValue>("world".to_string());

    let update_stmt: sea_query::UpdateStatement = mutator.into_update().to_sea_statement();
    let (sql, args) = update_stmt.build(sea_query::PostgresQueryBuilder);

    assert_eq!(
        sql,
        r#"UPDATE "test_ent" SET "value" = $1 WHERE "test_ent"."id" = $2"#
    );
    let args = args.0;
    assert_eq!(
        args,
        vec![
            sea_query::Value::String(Some("world".to_string())),
            sea_query::Value::Int(Some(1))
        ],
    );
}
