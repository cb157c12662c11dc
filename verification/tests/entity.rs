use ecsdb::component::{JsonStorage, NullStorage, StorageError};
use ecsdb::entity::{
    Entity, NewEntity, Statement, ATTACH, ATTACH_NEW, COMPONENT, COMPONENT_NAMES, DESTROY, DETACH,
    EXISTS, HAS,
};
use ecsdb::query::ir::{FilterExpression, OrderBy};
use ecsdb::query::With;
use ecsdb::resource::{
    attach_resource_statement, detach_resource_statement, resource_statement, ATTACH_RESOURCE,
    DETACH_RESOURCE, RESOURCE,
};
use ecsdb::{Component, ComponentRead, ComponentWrite, Error, Resource, StoreValue};

#[derive(Debug, PartialEq)]
struct A;

impl ComponentWrite<A> for A {
    fn to_rusqlite(_component: &A) -> Result<StoreValue, StorageError> {
        Ok(NullStorage::to_rusqlite())
    }
}

impl ComponentRead<A> for A {
    fn from_rusqlite(value: &StoreValue) -> Result<A, StorageError> {
        NullStorage::from_rusqlite(value).map(|_| A)
    }
}

impl Component for A {
    type Storage = NullStorage;
    const NAME: &'static str = "t::A";
}

#[derive(Debug, PartialEq)]
struct N(i64);

impl ComponentWrite<N> for N {
    fn to_rusqlite(component: &N) -> Result<StoreValue, StorageError> {
        if component.0 < 0 {
            return Err(StorageError::new("negative".to_string()));
        }
        Ok(JsonStorage::to_rusqlite(component.0.to_string()))
    }
}

impl ComponentRead<N> for N {
    fn from_rusqlite(value: &StoreValue) -> Result<N, StorageError> {
        let json = JsonStorage::from_rusqlite(value)?;
        json.parse()
            .map(N)
            .map_err(|e: std::num::ParseIntError| StorageError::new(e.to_string()))
    }
}

impl Component for N {
    type Storage = JsonStorage;
    const NAME: &'static str = "t::N";
}

impl Resource for N {}

fn text(s: &str) -> StoreValue {
    StoreValue::Text(s.to_string())
}

#[test]
fn an_entity_is_its_id() {
    let entity = Entity::with_id(42);
    assert_eq!(entity.id(), 42);
    let copy = entity;
    assert_eq!(copy.id(), entity.id());
}

#[test]
fn statements_on_one_entity() {
    let entity = Entity::with_id(42);
    let id = vec![StoreValue::Integer(42)];
    assert_eq!(
        entity.exists_statement(),
        Statement {
            sql: EXISTS,
            params: id.clone()
        }
    );
    assert_eq!(
        entity.component_names_statement(),
        Statement {
            sql: COMPONENT_NAMES,
            params: id.clone()
        }
    );
    assert_eq!(
        entity.destroy_statement(),
        Statement {
            sql: DESTROY,
            params: id
        }
    );
    assert_eq!(
        entity.component_statement("t::N"),
        Statement {
            sql: COMPONENT,
            params: vec![StoreValue::Integer(42), text("t::N")]
        }
    );
}

#[test]
fn attaching_writes_the_members_that_are_present() {
    let entity = Entity::with_id(7);
    let statements = entity
        .attach_statements(&(A, None::<N>, N(3), Some(N(4))))
        .unwrap();
    assert_eq!(
        statements,
        vec![
            Statement {
                sql: ATTACH,
                params: vec![StoreValue::Integer(7), text("t::A"), StoreValue::Null]
            },
            Statement {
                sql: ATTACH,
                params: vec![StoreValue::Integer(7), text("t::N"), text("3")]
            },
            Statement {
                sql: ATTACH,
                params: vec![StoreValue::Integer(7), text("t::N"), text("4")]
            },
        ]
    );
    assert_eq!(entity.attach_statements(&None::<A>), Ok(vec![]));
    assert_eq!(entity.attach_statements(&()), Ok(vec![]));
    assert_eq!(
        entity.attach_data(vec![("x", None), ("y", Some(StoreValue::Integer(1)))]),
        vec![Statement {
            sql: ATTACH,
            params: vec![StoreValue::Integer(7), text("y"), StoreValue::Integer(1)]
        }]
    );
}

#[test]
fn attaching_fails_where_a_member_cannot_be_written() {
    let entity = Entity::with_id(7);
    assert_eq!(
        entity.attach_statements(&(A, N(-1))),
        Err(Error::ComponentStorage(StorageError(
            "negative".to_string()
        )))
    );
}

#[test]
fn detaching_and_testing_go_name_by_name() {
    let entity = Entity::with_id(7);
    assert_eq!(
        entity.detach_statements::<(A, N)>(),
        vec![
            Statement {
                sql: DETACH,
                params: vec![StoreValue::Integer(7), text("t::A")]
            },
            Statement {
                sql: DETACH,
                params: vec![StoreValue::Integer(7), text("t::N")]
            },
        ]
    );
    assert_eq!(
        entity.has_statements::<(N, A, N)>(),
        vec![
            Statement {
                sql: HAS,
                params: vec![StoreValue::Integer(7), text("t::N")]
            },
            Statement {
                sql: HAS,
                params: vec![StoreValue::Integer(7), text("t::A")]
            },
            Statement {
                sql: HAS,
                params: vec![StoreValue::Integer(7), text("t::N")]
            },
        ]
    );
    assert!(entity.detach_statements::<()>().is_empty());
    assert!(entity.has_statements::<()>().is_empty());
}

#[test]
fn a_new_entity_takes_the_id_of_its_first_record() {
    assert_eq!(
        NewEntity::attach_statement(None, "t::A", StoreValue::Null),
        Statement {
            sql: ATTACH_NEW,
            params: vec![text("t::A"), StoreValue::Null]
        }
    );
    assert_eq!(
        NewEntity::attach_statement(Some(100), "t::N", text("1")),
        Statement {
            sql: ATTACH,
            params: vec![StoreValue::Integer(100), text("t::N"), text("1")]
        }
    );
    assert_eq!(
        Some(NewEntity::attach_statement(Some(100), "t::N", text("1"))),
        Entity::with_id(100)
            .attach_data(vec![("t::N", Some(text("1")))])
            .pop()
    );
    let mut new = NewEntity::without_id();
    assert!(new.component_names().is_empty());
    new.detach::<A>();
    assert!(new.component_names().is_empty());
}

#[test]
fn the_steps_of_a_new_attach_skip_absent_members() {
    assert_eq!(NewEntity::next_attach(None, "t::A", None), None);
    assert_eq!(NewEntity::next_attach(Some(100), "t::A", None), None);
    assert_eq!(
        NewEntity::next_attach(None, "t::N", Some(text("1"))),
        Some(Statement {
            sql: ATTACH_NEW,
            params: vec![text("t::N"), text("1")]
        })
    );
    assert_eq!(
        NewEntity::next_attach(Some(100), "t::N", Some(text("1"))),
        Some(Statement {
            sql: ATTACH,
            params: vec![StoreValue::Integer(100), text("t::N"), text("1")]
        })
    );
}

#[test]
fn an_entity_has_all_if_every_test_found_a_row() {
    assert!(Entity::has_all(&vec![]));
    assert!(Entity::has_all(&vec![true]));
    assert!(Entity::has_all(&vec![true, true, true]));
    assert!(!Entity::has_all(&vec![false]));
    assert!(!Entity::has_all(&vec![true, false]));
    assert!(!Entity::has_all(&vec![false, true, true]));
}

#[test]
fn matching_is_a_query_on_the_entity_itself() {
    let query = Entity::with_id(9).matches_query::<With<A>>();
    assert_eq!(query.order_by, OrderBy::Asc);
    assert_eq!(
        query.filter,
        FilterExpression::and(vec![
            FilterExpression::none(),
            FilterExpression::with_component("t::A"),
            FilterExpression::entity(9),
        ])
    );
}

#[test]
fn resources_are_stored_under_their_names() {
    assert_eq!(N::resource_name(), "t::N");
    assert_eq!(
        resource_statement::<N>(),
        Statement {
            sql: RESOURCE,
            params: vec![text("t::N")]
        }
    );
    assert_eq!(
        attach_resource_statement(&N(5)),
        Ok(Statement {
            sql: ATTACH_RESOURCE,
            params: vec![text("t::N"), text("5")]
        })
    );
    assert_eq!(
        attach_resource_statement(&N(-5)),
        Err(Error::ComponentStorage(StorageError(
            "negative".to_string()
        )))
    );
    assert_eq!(
        detach_resource_statement::<N>(),
        Statement {
            sql: DETACH_RESOURCE,
            params: vec![text("t::N")]
        }
    );
}
