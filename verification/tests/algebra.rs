use ecsdb::component::{JsonStorage, NullStorage, StorageError};
use ecsdb::query::ir::{FilterExpression, OrderBy};
use ecsdb::query::{
    AnyOf, ComponentName, Or, Query, QueryData, QueryFilter, QueryFilterValue, With, Without,
};
use ecsdb::{Component, ComponentRead, ComponentWrite, EntityId, StoreValue};

#[derive(Debug, PartialEq)]
struct A;

impl ComponentWrite<A> for A {
    fn to_rusqlite(_component: &A) -> Result<StoreValue, StorageError> {
        Ok(NullStorage::to_rusqlite())
    }
}

impl ComponentRead<A> for A {
    fn from_rusqlite(value: &StoreValue) -> Result<A, StorageError> {
        NullStorage::from_rusqlite(value).map(|_| A)
    }
}

impl Component for A {
    type Storage = NullStorage;
    const NAME: &'static str = "t::A";
}

#[derive(Debug, PartialEq)]
struct B;

impl ComponentWrite<B> for B {
    fn to_rusqlite(_component: &B) -> Result<StoreValue, StorageError> {
        Ok(NullStorage::to_rusqlite())
    }
}

impl ComponentRead<B> for B {
    fn from_rusqlite(value: &StoreValue) -> Result<B, StorageError> {
        NullStorage::from_rusqlite(value).map(|_| B)
    }
}

impl Component for B {
    type Storage = NullStorage;
    const NAME: &'static str = "t::B";
}

#[derive(Debug, PartialEq)]
struct N(i64);

impl ComponentWrite<N> for N {
    fn to_rusqlite(component: &N) -> Result<StoreValue, StorageError> {
        if component.0 < 0 {
            return Err(StorageError::new("negative".to_string()));
        }
        Ok(JsonStorage::to_rusqlite(component.0.to_string()))
    }
}

impl ComponentRead<N> for N {
    fn from_rusqlite(value: &StoreValue) -> Result<N, StorageError> {
        let json = JsonStorage::from_rusqlite(value)?;
        json.parse()
            .map(N)
            .map_err(|e: std::num::ParseIntError| StorageError::new(e.to_string()))
    }
}

impl Component for N {
    type Storage = JsonStorage;
    const NAME: &'static str = "t::N";
}

fn with(name: &str) -> FilterExpression {
    FilterExpression::with_component(name)
}

fn without(name: &str) -> FilterExpression {
    FilterExpression::without_component(name)
}

fn text(s: &str) -> StoreValue {
    StoreValue::Text(s.to_string())
}

#[test]
fn what_is_fetched_restricts_the_query() {
    assert_eq!(<() as QueryData>::filter_expression(), FilterExpression::none());
    assert_eq!(
        <EntityId as QueryData>::filter_expression(),
        FilterExpression::none()
    );
    assert_eq!(<A as QueryData>::filter_expression(), with("t::A"));
    assert_eq!(
        <(EntityId, A, N) as QueryData>::filter_expression(),
        FilterExpression::and(vec![FilterExpression::none(), with("t::A"), with("t::N")])
    );
    assert_eq!(
        <(A,) as QueryData>::filter_expression(),
        FilterExpression::and(vec![with("t::A")])
    );
}

#[test]
fn presence_predicates_lower_to_one_node_each() {
    assert_eq!(<() as QueryFilter>::filter_expression(), FilterExpression::none());
    assert_eq!(<A as QueryFilter>::filter_expression(), with("t::A"));
    assert_eq!(<With<A> as QueryFilter>::filter_expression(), with("t::A"));
    assert_eq!(
        <Without<A> as QueryFilter>::filter_expression(),
        without("t::A")
    );
    assert_eq!(
        <With<(A, B)> as QueryFilter>::filter_expression(),
        FilterExpression::and(vec![with("t::A"), with("t::B")])
    );
    assert_eq!(
        <Without<(A, B)> as QueryFilter>::filter_expression(),
        FilterExpression::and(vec![without("t::A"), without("t::B")])
    );
    assert_eq!(
        <AnyOf<(A, B, N)> as QueryFilter>::filter_expression(),
        FilterExpression::or(vec![with("t::A"), with("t::B"), with("t::N")])
    );
    assert_eq!(
        <AnyOf<()> as QueryFilter>::filter_expression(),
        FilterExpression::or(vec![])
    );
    assert_eq!(
        <Or<(With<A>, Without<B>)> as QueryFilter>::filter_expression(),
        FilterExpression::or(vec![with("t::A"), without("t::B")])
    );
    assert_eq!(
        <(With<A>, Or<(With<B>, With<N>)>, Without<(A,)>) as QueryFilter>::filter_expression(),
        FilterExpression::and(vec![
            with("t::A"),
            FilterExpression::or(vec![with("t::B"), with("t::N")]),
            FilterExpression::and(vec![without("t::A")]),
        ])
    );
}

#[test]
fn predicates_have_defaults() {
    let _: With<A> = Default::default();
    let _: Without<(A, B)> = Default::default();
    let _: AnyOf<(A, B)> = Default::default();
    let _: Or<(With<A>, Without<B>)> = Default::default();
}

#[test]
fn values_lower_to_conditions_on_values() {
    assert_eq!(().filter_expression(), FilterExpression::none());
    assert_eq!(42i64.filter_expression(), FilterExpression::entity(42));
    assert_eq!(
        ComponentName("t::A".to_string()).filter_expression(),
        with("t::A")
    );
    assert_eq!(
        N(5).filter_expression(),
        FilterExpression::with_component_data("t::N", text("5"))
    );
    assert_eq!(
        A.filter_expression(),
        FilterExpression::with_component_data("t::A", StoreValue::Null)
    );
    assert_eq!(
        (7i64, N(5)).filter_expression(),
        FilterExpression::and(vec![
            FilterExpression::entity(7),
            FilterExpression::with_component_data("t::N", text("5")),
        ])
    );
    let ids: &[EntityId] = &[1, 2];
    assert_eq!(
        ids.filter_expression(),
        FilterExpression::and(vec![FilterExpression::entity(1), FilterExpression::entity(2)])
    );
}

#[test]
fn ranges_lower_to_range_conditions() {
    assert_eq!(
        (N(1)..N(5)).filter_expression(),
        FilterExpression::WithComponentDataRange {
            component: "t::N".to_string(),
            start: text("1"),
            end: text("5"),
        }
    );
    assert_eq!(
        (N(1)..).filter_expression(),
        FilterExpression::WithComponentDataRange {
            component: "t::N".to_string(),
            start: text("1"),
            end: StoreValue::Null,
        }
    );
    assert_eq!(
        (..N(5)).filter_expression(),
        FilterExpression::WithComponentDataRange {
            component: "t::N".to_string(),
            start: StoreValue::Null,
            end: text("5"),
        }
    );
}

#[test]
fn a_value_that_cannot_be_written_is_not_filterable() {
    assert!(N(1).is_filterable());
    assert!(!N(-1).is_filterable());
    assert!(().is_filterable());
    assert!(3i64.is_filterable());
    assert!(ComponentName(String::new()).is_filterable());
    assert!((N(1), 3i64).is_filterable());
    assert!(!(N(1), N(-1)).is_filterable());
    assert!((N(0)..N(1)).is_filterable());
    assert!(!(N(-1)..N(1)).is_filterable());
    assert!(!(N(0)..N(-1)).is_filterable());
    assert!(!(..N(-1)).is_filterable());
    assert!(!(N(-1)..).is_filterable());
    let values: &[N] = &[N(1), N(-1)];
    assert!(!values.is_filterable());
    let values: &[N] = &[N(1), N(2)];
    assert!(values.is_filterable());
}

#[test]
fn a_query_is_the_conjunction_of_its_three_parts() {
    let query: Query<(EntityId, A), Without<B>, N> = Query::with_filter(N(3));
    let lowered = query.as_sql_query();
    assert_eq!(lowered.order_by, OrderBy::Asc);
    assert_eq!(
        lowered.filter,
        FilterExpression::and(vec![
            FilterExpression::and(vec![FilterExpression::none(), with("t::A")]),
            without("t::B"),
            FilterExpression::with_component_data("t::N", text("3")),
        ])
    );
    let (sql, placeholders) = lowered.into_sql();
    assert_eq!(
        sql,
        "select distinct entity from components where ((entity in (select entity from components where component = :1)) and entity not in (select entity from components where component = :2) and entity in (select entity from components where component = :3 and data = :4)) order by entity asc"
    );
    assert_eq!(
        placeholders,
        vec![
            (":1".to_string(), text("t::A")),
            (":2".to_string(), text("t::B")),
            (":3".to_string(), text("t::N")),
            (":4".to_string(), text("3")),
        ]
    );

    let plain: Query<A, ()> = Query::new();
    assert_eq!(
        plain.as_sql_query().filter,
        FilterExpression::and(vec![
            with("t::A"),
            FilterExpression::none(),
            FilterExpression::none()
        ])
    );
}
