use ecsdb::changes::{
    changes_statement, truncate_statement, Change, ChangeRecord, CHANGE_TRACKING,
    NO_CHANGE_TRACKING,
};
use ecsdb::component::{BlobStorage, Bundle, JsonStorage, NullStorage, StorageError};
use ecsdb::entity::{Entity, NewEntity, Statement};
use ecsdb::query::ir::{self, OrderBy};
use ecsdb::query::{AnyOf, Or, Query, QueryData, QueryFilter, QueryFilterValue, With, Without};
use ecsdb::resource::{attach_resource_statement, detach_resource_statement, resource_statement};
use ecsdb::schema::SCHEMA;
use ecsdb::sqlite_ext::{extract_ordinal, EXTRACT_ORDINAL};
use ecsdb::{Component, ComponentRead, ComponentWrite, EntityId, Resource, StoreValue};
use rusqlite::functions::FunctionFlags;
use rusqlite::types::{ToSql, Value, ValueRef};
use rusqlite::Connection;

fn to_sql(value: &StoreValue) -> Value {
    match value {
        StoreValue::Null => Value::Null,
        StoreValue::Integer(i) => Value::Integer(*i),
        StoreValue::Real(bits) => Value::Real(f64::from_bits(*bits)),
        StoreValue::Text(text) => Value::Text(text.clone()),
        StoreValue::Blob(bytes) => Value::Blob(bytes.clone()),
    }
}

fn from_sql(value: ValueRef<'_>) -> StoreValue {
    match value {
        ValueRef::Null => StoreValue::Null,
        ValueRef::Integer(i) => StoreValue::Integer(i),
        ValueRef::Real(real) => StoreValue::Real(real.to_bits()),
        ValueRef::Text(text) => StoreValue::Text(String::from_utf8(text.to_vec()).unwrap()),
        ValueRef::Blob(bytes) => StoreValue::Blob(bytes.to_vec()),
    }
}

struct Ecs {
    conn: Connection,
}

impl Ecs {
    fn open_in_memory() -> Ecs {
        let conn = Connection::open_in_memory().unwrap();
        conn.execute_batch(SCHEMA).unwrap();
        conn.create_scalar_function(
            EXTRACT_ORDINAL,
            1,
            FunctionFlags::SQLITE_UTF8 | FunctionFlags::SQLITE_DETERMINISTIC,
            |ctx| {
                let ordinal = extract_ordinal(&from_sql(ctx.get_raw(0)))
                    .map_err(|e| rusqlite::Error::UserFunctionError(e.to_string().into()))?;
                Ok(to_sql(&ordinal))
            },
        )
        .unwrap();
        Ecs { conn }
    }

    fn execute(&self, statement: &Statement) -> usize {
        let params: Vec<Value> = statement.params.iter().map(to_sql).collect();
        self.conn
            .execute(statement.sql, rusqlite::params_from_iter(params))
            .unwrap()
    }

    fn finds_a_row(&self, statement: &Statement) -> bool {
        let params: Vec<Value> = statement.params.iter().map(to_sql).collect();
        let mut stmt = self.conn.prepare(statement.sql).unwrap();
        stmt.exists(rusqlite::params_from_iter(params)).unwrap()
    }

    fn new_entity<B: Bundle>(&self, bundle: B) -> EntityId {
        let data = bundle.to_rusqlite().unwrap();
        assert!(!data.is_empty());
        let mut eid = None;
        for (component, value) in data {
            if let Some(statement) = NewEntity::next_attach(eid, component, value) {
                let params: Vec<Value> = statement.params.iter().map(to_sql).collect();
                match eid {
                    None => {
                        let id: EntityId = self
                            .conn
                            .query_row(statement.sql, rusqlite::params_from_iter(params), |row| {
                                row.get("entity")
                            })
                            .unwrap();
                        eid = Some(id);
                    }
                    Some(_) => {
                        self.execute(&statement);
                    }
                }
            }
        }
        eid.unwrap()
    }

    fn attach<B: Bundle>(&self, entity: EntityId, bundle: B) -> usize {
        let statements = Entity::with_id(entity).attach_statements(&bundle).unwrap();
        statements.iter().map(|s| self.execute(s)).sum()
    }

    fn detach<B: Bundle>(&self, entity: EntityId) -> usize {
        let statements = Entity::with_id(entity).detach_statements::<B>();
        statements.iter().map(|s| self.execute(s)).sum()
    }

    fn destroy(&self, entity: EntityId) {
        self.execute(&Entity::with_id(entity).destroy_statement());
    }

    fn is_alive(&self, entity: EntityId) -> bool {
        self.finds_a_row(&Entity::with_id(entity).exists_statement())
    }

    fn has<B: Bundle>(&self, entity: EntityId) -> bool {
        let mut found = Vec::new();
        for statement in Entity::with_id(entity).has_statements::<B>() {
            let row = self.finds_a_row(&statement);
            found.push(row);
            if !row {
                break;
            }
        }
        Entity::has_all(&found)
    }

    fn component<C: Component>(&self, entity: EntityId) -> Option<C> {
        let statement = Entity::with_id(entity).component_statement(C::component_name());
        let params: Vec<Value> = statement.params.iter().map(to_sql).collect();
        let mut stmt = self.conn.prepare(statement.sql).unwrap();
        let mut rows = stmt.query(rusqlite::params_from_iter(params)).unwrap();
        let row = rows.next().unwrap()?;
        let value = from_sql(row.get_ref("data").unwrap());
        Some(C::from_rusqlite(&value).unwrap())
    }

    fn component_names(&self, entity: EntityId) -> Vec<String> {
        let statement = Entity::with_id(entity).component_names_statement();
        let params: Vec<Value> = statement.params.iter().map(to_sql).collect();
        let mut stmt = self.conn.prepare(statement.sql).unwrap();
        let names = stmt
            .query_map(rusqlite::params_from_iter(params), |row| row.get(0))
            .unwrap()
            .collect::<Result<Vec<String>, _>>()
            .unwrap();
        names
    }

    fn rows(&self, entity: EntityId, component: &str) -> i64 {
        self.conn
            .query_row(
                "select count(*) from components where entity = ?1 and component = ?2",
                (entity, component),
                |row| row.get(0),
            )
            .unwrap()
    }

    fn last_modified(&self, entity: EntityId, component: &str) -> String {
        self.conn
            .query_row(
                "select last_modified from components where entity = ?1 and component = ?2",
                (entity, component),
                |row| row.get(0),
            )
            .unwrap()
    }

    fn entity_last_modified(&self, entity: EntityId) -> Option<String> {
        let statement = Entity::with_id(entity).last_modified_statement();
        let params: Vec<Value> = statement.params.iter().map(to_sql).collect();
        self.conn
            .query_row(statement.sql, rusqlite::params_from_iter(params), |row| {
                row.get(0)
            })
            .unwrap()
    }

    fn resource<R: Resource>(&self) -> Option<R> {
        let statement = resource_statement::<R>();
        let params: Vec<Value> = statement.params.iter().map(to_sql).collect();
        let mut stmt = self.conn.prepare(statement.sql).unwrap();
        let mut rows = stmt.query(rusqlite::params_from_iter(params)).unwrap();
        let row = rows.next().unwrap()?;
        let value = from_sql(row.get_ref("data").unwrap());
        Some(R::from_rusqlite(&value).unwrap())
    }

    fn attach_resource<R: Resource>(&self, resource: R) {
        self.execute(&attach_resource_statement(&resource).unwrap());
    }

    fn detach_resource<R: Resource>(&self) {
        self.execute(&detach_resource_statement::<R>());
    }

    fn modify_resource<R: Resource + Default>(&self, modify: impl FnOnce(&mut R)) {
        let mut resource = self.resource::<R>().unwrap_or_default();
        modify(&mut resource);
        self.attach_resource(resource);
    }

    fn changes(&self) -> Vec<ChangeRecord> {
        let statement = changes_statement();
        let mut stmt = self.conn.prepare(statement.sql).unwrap();
        let mut rows = stmt.query([]).unwrap();
        let mut records = Vec::new();
        while let Some(row) = rows.next().unwrap() {
            let values: Vec<StoreValue> = (0..4)
                .map(|column| from_sql(row.get_ref(column).unwrap()))
                .collect();
            records
                .push(ChangeRecord::from_row(&values[0], &values[1], &values[2], &values[3]).unwrap());
        }
        records
    }

    fn logged(&self) -> Vec<(EntityId, Option<String>, Change)> {
        self.changes()
            .into_iter()
            .map(|record| (record.entity, record.component, record.change))
            .collect()
    }

    fn fetch(&self, query: ir::Query) -> Vec<EntityId> {
        let (sql, placeholders) = query.into_sql();
        let values: Vec<(String, Value)> = placeholders
            .iter()
            .map(|(name, value)| (name.clone(), to_sql(value)))
            .collect();
        let params: Vec<(&str, &dyn ToSql)> = values
            .iter()
            .map(|(name, value)| (name.as_str(), value as &dyn ToSql))
            .collect();
        let mut stmt = self.conn.prepare(&sql).unwrap();
        let ids = stmt
            .query_map(&params[..], |row| row.get::<_, EntityId>("entity"))
            .unwrap()
            .collect::<Result<Vec<_>, _>>()
            .unwrap();
        ids
    }

    fn select<D: QueryData, F: QueryFilter, V: QueryFilterValue>(
        &self,
        value: V,
        order_by: OrderBy,
    ) -> Vec<EntityId> {
        let query: Query<D, F, V> = Query::with_filter(value);
        assert!(query.filter_value.is_filterable());
        let mut query = query.as_sql_query();
        query.order_by = order_by;
        self.fetch(query)
    }

    fn query<D: QueryData>(&self) -> Vec<EntityId> {
        self.select::<D, (), ()>((), OrderBy::Asc)
    }

    fn query_filtered<D: QueryData, F: QueryFilter>(&self) -> Vec<EntityId> {
        self.select::<D, F, ()>((), OrderBy::Asc)
    }

    fn find<V: QueryFilterValue>(&self, value: V) -> Vec<EntityId> {
        self.select::<(), (), V>(value, OrderBy::Asc)
    }

    fn matches<F: QueryFilter>(&self, entity: EntityId) -> bool {
        !self
            .fetch(Entity::with_id(entity).matches_query::<F>())
            .is_empty()
    }
}

#[derive(Debug, PartialEq, Default)]
struct MarkerComponent;

impl ComponentWrite<MarkerComponent> for MarkerComponent {
    fn to_rusqlite(_component: &MarkerComponent) -> Result<StoreValue, StorageError> {
        Ok(NullStorage::to_rusqlite())
    }
}

impl ComponentRead<MarkerComponent> for MarkerComponent {
    fn from_rusqlite(value: &StoreValue) -> Result<MarkerComponent, StorageError> {
        NullStorage::from_rusqlite(value).map(|_| MarkerComponent)
    }
}

impl Component for MarkerComponent {
    type Storage = NullStorage;
    const NAME: &'static str = "ecsdb::tests::MarkerComponent";
}

#[derive(Debug, PartialEq)]
struct ComponentWithData(u64);

impl ComponentWrite<ComponentWithData> for ComponentWithData {
    fn to_rusqlite(component: &ComponentWithData) -> Result<StoreValue, StorageError> {
        Ok(JsonStorage::to_rusqlite(component.0.to_string()))
    }
}

impl ComponentRead<ComponentWithData> for ComponentWithData {
    fn from_rusqlite(value: &StoreValue) -> Result<ComponentWithData, StorageError> {
        let json = JsonStorage::from_rusqlite(value)?;
        json.parse()
            .map(ComponentWithData)
            .map_err(|e: std::num::ParseIntError| StorageError::new(e.to_string()))
    }
}

impl Component for ComponentWithData {
    type Storage = JsonStorage;
    const NAME: &'static str = "ecsdb::tests::ComponentWithData";
}

#[derive(Debug, PartialEq)]
struct A;

impl ComponentWrite<A> for A {
    fn to_rusqlite(_component: &A) -> Result<StoreValue, StorageError> {
        Ok(NullStorage::to_rusqlite())
    }
}

impl ComponentRead<A> for A {
    fn from_rusqlite(value: &StoreValue) -> Result<A, StorageError> {
        NullStorage::from_rusqlite(value).map(|_| A)
    }
}

impl Component for A {
    type Storage = NullStorage;
    const NAME: &'static str = "ecsdb::tests::A";
}

#[derive(Debug, PartialEq)]
struct B;

impl ComponentWrite<B> for B {
    fn to_rusqlite(_component: &B) -> Result<StoreValue, StorageError> {
        Ok(NullStorage::to_rusqlite())
    }
}

impl ComponentRead<B> for B {
    fn from_rusqlite(value: &StoreValue) -> Result<B, StorageError> {
        NullStorage::from_rusqlite(value).map(|_| B)
    }
}

impl Component for B {
    type Storage = NullStorage;
    const NAME: &'static str = "ecsdb::tests::B";
}

#[derive(Debug, PartialEq)]
struct C;

impl ComponentWrite<C> for C {
    fn to_rusqlite(_component: &C) -> Result<StoreValue, StorageError> {
        Ok(NullStorage::to_rusqlite())
    }
}

impl ComponentRead<C> for C {
    fn from_rusqlite(value: &StoreValue) -> Result<C, StorageError> {
        NullStorage::from_rusqlite(value).map(|_| C)
    }
}

impl Component for C {
    type Storage = NullStorage;
    const NAME: &'static str = "ecsdb::tests::C";
}

#[derive(Debug, PartialEq)]
enum Foo {
    A,
    B,
}

impl ComponentWrite<Foo> for Foo {
    fn to_rusqlite(component: &Foo) -> Result<StoreValue, StorageError> {
        let name = match component {
            Foo::A => "A",
            Foo::B => "B",
        };
        let json = serde_json::to_string(name).map_err(|e| StorageError::new(e.to_string()))?;
        Ok(JsonStorage::to_rusqlite(json))
    }
}

impl ComponentRead<Foo> for Foo {
    fn from_rusqlite(value: &StoreValue) -> Result<Foo, StorageError> {
        let json = JsonStorage::from_rusqlite(value)?;
        let name: String =
            serde_json::from_str(json).map_err(|e| StorageError::new(e.to_string()))?;
        match name.as_str() {
            "A" => Ok(Foo::A),
            "B" => Ok(Foo::B),
            other => Err(StorageError::new(format!("unknown variant {other}"))),
        }
    }
}

impl Component for Foo {
    type Storage = JsonStorage;
    const NAME: &'static str = "ecsdb::tests::enum_component::Foo";
}

#[derive(Debug, PartialEq, Clone)]
struct X(Vec<u8>);

impl AsRef<[u8]> for X {
    fn as_ref(&self) -> &[u8] {
        self.0.as_slice()
    }
}

impl From<Vec<u8>> for X {
    fn from(value: Vec<u8>) -> Self {
        Self(value)
    }
}

impl ComponentWrite<X> for X {
    fn to_rusqlite(component: &X) -> Result<StoreValue, StorageError> {
        Ok(BlobStorage::to_rusqlite(component.as_ref()))
    }
}

impl ComponentRead<X> for X {
    fn from_rusqlite(value: &StoreValue) -> Result<X, StorageError> {
        BlobStorage::from_rusqlite(value).map(X::from)
    }
}

impl Component for X {
    type Storage = BlobStorage;
    const NAME: &'static str = "ecsdb::tests::blob_component::X";
}

#[test]
fn entity_attach_detach() {
    let db = Ecs::open_in_memory();
    let entity = db.new_entity(ComponentWithData(1234));
    db.attach(entity, MarkerComponent);

    assert!(db.component::<MarkerComponent>(entity).is_some());
    db.detach::<MarkerComponent>(entity);
    assert!(db.component::<MarkerComponent>(entity).is_none());

    assert_eq!(
        db.component::<ComponentWithData>(entity),
        Some(ComponentWithData(1234))
    );
}

#[test]
fn component_overwrites() {
    let db = Ecs::open_in_memory();

    let entity = db.new_entity(ComponentWithData(42));
    db.attach(entity, ComponentWithData(23));
    assert_eq!(db.component::<ComponentWithData>(entity).unwrap().0, 23);
}

#[test]
fn attaching_same_component_in_bundle_overwrites() {
    let db = Ecs::open_in_memory();

    let entity = db.new_entity((ComponentWithData(42), ComponentWithData(23)));
    assert_eq!(db.component::<ComponentWithData>(entity).unwrap().0, 23);
}

#[test]
fn query_tuples() {
    let db = Ecs::open_in_memory();
    let _ = db.query::<MarkerComponent>();
    let _ = db.query::<()>();
    let _ = db.query::<(EntityId, MarkerComponent)>();

    let _ = db.query_filtered::<EntityId, With<MarkerComponent>>();
    let _ = db.query_filtered::<EntityId, Without<MarkerComponent>>();
    let _ = db.query_filtered::<MarkerComponent, Or<(
        Without<(MarkerComponent, MarkerComponent)>,
        With<(MarkerComponent, MarkerComponent)>,
        Or<(With<MarkerComponent>, Without<MarkerComponent>)>,
    )>>();
    let _ = db.query_filtered::<MarkerComponent, (
        With<(MarkerComponent, ComponentWithData)>,
        Without<(MarkerComponent, MarkerComponent)>,
    )>();
    let _ = db.query_filtered::<MarkerComponent, Without<ComponentWithData>>();
    let _ = db.query_filtered::<MarkerComponent, Without<ComponentWithData>>();
    let _ = db.query_filtered::<(), (
        With<MarkerComponent>,
        With<MarkerComponent>,
        With<MarkerComponent>,
        With<MarkerComponent>,
        With<MarkerComponent>,
        With<MarkerComponent>,
        Without<MarkerComponent>,
        With<MarkerComponent>,
    )>();
}

#[test]
fn query() {
    let db = Ecs::open_in_memory();

    let first = db.new_entity(MarkerComponent);
    db.attach(first, ComponentWithData(1234));

    db.new_entity(ComponentWithData(1234));

    assert_eq!(db.query::<()>().len(), 2);
    assert_eq!(db.query::<MarkerComponent>().len(), 1);
    assert_eq!(db.query::<MarkerComponent>().len(), 1);
}

#[test]
fn entity_match_filtered() {
    let db = Ecs::open_in_memory();

    let first = db.new_entity(MarkerComponent);
    db.attach(first, ComponentWithData(1234));

    db.new_entity(ComponentWithData(1234));

    assert_eq!(
        db.query_filtered::<EntityId, Without<MarkerComponent>>()
            .len(),
        1
    );
    assert_eq!(db.query::<(MarkerComponent, ComponentWithData)>().len(), 1);
    assert_eq!(
        db.query_filtered::<MarkerComponent, Without<MarkerComponent>>()
            .len(),
        0
    );
    assert_eq!(
        db.query_filtered::<MarkerComponent, (
            Without<MarkerComponent>,
            Or<(With<MarkerComponent>, With<ComponentWithData>)>
        )>()
        .len(),
        0
    );
    assert_eq!(db.query::<ComponentWithData>().len(), 2);
}

#[test]
fn or() {
    let db = Ecs::open_in_memory();
    let a = db.new_entity(A);
    let b = db.new_entity(B);
    let c = db.new_entity(C);

    assert_eq!(
        db.query_filtered::<EntityId, Or<(With<A>, With<B>, With<C>)>>(),
        vec![a, b, c]
    );
    assert_eq!(
        db.query_filtered::<EntityId, Or<(With<A>, With<B>)>>(),
        vec![a, b]
    );
    assert_eq!(db.query_filtered::<EntityId, Or<(With<A>,)>>(), vec![a]);
    assert_eq!(db.query_filtered::<EntityId, Or<(With<B>,)>>(), vec![b]);
}

#[test]
fn query_any_of() {
    let db = Ecs::open_in_memory();
    let a = db.new_entity(A);
    let b = db.new_entity(B);
    let c = db.new_entity(C);

    assert_eq!(db.query_filtered::<EntityId, AnyOf<(A, B)>>(), vec![a, b]);
    assert_eq!(db.query_filtered::<EntityId, AnyOf<(A, C)>>(), vec![a, c]);
    assert_eq!(db.query_filtered::<EntityId, AnyOf<(A,)>>(), vec![a]);
}

#[test]
fn find() {
    let db = Ecs::open_in_memory();
    let eid = db.new_entity(ComponentWithData(123));
    let _ = db.new_entity(ComponentWithData(123));
    let _ = db.new_entity(ComponentWithData(255));

    assert_eq!(db.find(eid).len(), 1);
    assert_eq!(db.find(eid)[0], eid);
    assert_eq!(db.find((eid, MarkerComponent)).len(), 0);
    assert_eq!(db.find(MarkerComponent).len(), 0);
    assert_eq!(db.find(ComponentWithData(0)).len(), 0);
    assert_eq!(db.find(ComponentWithData(123)).len(), 2);
    assert_eq!(db.find(ComponentWithData(255)).len(), 1);

    let marked = db.new_entity(MarkerComponent);
    db.attach(marked, ComponentWithData(12345));
    assert_eq!(
        db.find((MarkerComponent, ComponentWithData(12345))).len(),
        1
    );
}

#[test]
fn enum_component() {
    let db = Ecs::open_in_memory();
    let entity = db.new_entity(Foo::A);
    assert_eq!(db.component::<Foo>(entity).unwrap(), Foo::A);
    let other = db.new_entity(Foo::B);
    assert_eq!(db.component::<Foo>(other).unwrap(), Foo::B);
}

#[test]
fn blob_component() {
    let x = X(b"asdfasdf".into());

    let db = Ecs::open_in_memory();
    let entity = db.new_entity(x.clone());

    assert_eq!(db.component::<X>(entity).unwrap(), x.clone());
}

#[test]
fn has_many() {
    let db = Ecs::open_in_memory();
    let a = db.new_entity(A);
    assert!(db.has::<A>(a));
    assert!(!db.has::<B>(a));

    assert_eq!(db.has::<(A,)>(a), true);
    assert_eq!(db.has::<(A, B)>(a), false);
    assert_eq!(db.has::<(A, B, A)>(a), false);

    let ab = db.new_entity(A);
    db.attach(ab, B);
    assert_eq!(db.has::<(A, B)>(ab), true);
    assert_eq!(db.has::<(A, A)>(ab), true);
    assert_eq!(db.has::<(A, B, A)>(ab), true);
}

#[test]
fn from_component_composite() {
    let db = Ecs::open_in_memory();
    let e = db.new_entity((A, B));
    assert!(db.has::<(A, B)>(e));
}

#[test]
fn entity_matches() {
    let db = Ecs::open_in_memory();
    let e = db.new_entity(A);
    let e2 = db.new_entity((A, B));

    assert!(db.matches::<With<A>>(e));
    assert!(!db.matches::<With<B>>(e));
    assert!(!db.matches::<With<(A, B)>>(e));

    assert!(db.matches::<With<A>>(e2));
    assert!(db.matches::<With<B>>(e2));
    assert!(db.matches::<With<(A, B)>>(e2));
}

#[test]
fn new_entities_are_numbered_from_one_hundred() {
    let db = Ecs::open_in_memory();
    let first = db.new_entity(A);
    assert_eq!(first, 100);
    let second = db.new_entity((A, B));
    assert_eq!(second, 101);
    assert_eq!(db.component_names(second), vec![A::NAME, B::NAME]);

    db.attach(7, A);
    db.destroy(first);
    db.destroy(second);
    assert_eq!(db.new_entity(A), 8);
}

#[test]
fn an_entity_exists_while_it_has_a_component() {
    let db = Ecs::open_in_memory();
    assert!(!db.is_alive(5));
    db.attach(5, A);
    assert!(db.is_alive(5));
    db.detach::<A>(5);
    assert!(!db.is_alive(5));

    db.attach(5, (A, B));
    db.destroy(5);
    assert!(!db.is_alive(5));
    db.destroy(5);
    assert_eq!(db.detach::<(A, B)>(5), 0);
}

#[test]
fn at_most_one_row_for_an_entity_and_a_component() {
    let db = Ecs::open_in_memory();
    let name = ComponentWithData::NAME;
    let e = db.new_entity(ComponentWithData(1));
    assert_eq!(db.rows(e, name), 1);
    db.attach(e, ComponentWithData(2));
    db.attach(e, (ComponentWithData(3), ComponentWithData(4)));
    assert_eq!(db.rows(e, name), 1);
    db.detach::<ComponentWithData>(e);
    assert_eq!(db.rows(e, name), 0);
    db.detach::<ComponentWithData>(e);
    db.attach(e, ComponentWithData(5));
    db.attach(e, ComponentWithData(5));
    assert_eq!(db.rows(e, name), 1);
    assert_eq!(db.component::<ComponentWithData>(e), Some(ComponentWithData(5)));
}

#[test]
fn writing_the_stored_value_again_changes_nothing() {
    let db = Ecs::open_in_memory();
    let e = db.new_entity(ComponentWithData(1));
    db.conn
        .execute(
            "update components set last_modified = '2000-01-01T00:00:00.000Z'",
            [],
        )
        .unwrap();
    let before = db.last_modified(e, ComponentWithData::NAME);
    assert_eq!(before, "2000-01-01T00:00:00.000Z");

    assert_eq!(db.attach(e, ComponentWithData(1)), 0);
    assert_eq!(db.last_modified(e, ComponentWithData::NAME), before);

    assert_eq!(db.attach(e, ComponentWithData(2)), 1);
    assert!(db.last_modified(e, ComponentWithData::NAME) > before);
}

#[test]
fn a_record_is_stamped_when_it_is_written() {
    let db = Ecs::open_in_memory();
    let e = db.new_entity(A);
    assert!(db.last_modified(e, A::NAME).as_str() > "2020-01-01");
    db.conn
        .execute(
            "update components set last_modified = '2000-01-01T00:00:00.000Z'",
            [],
        )
        .unwrap();
    let old = db.last_modified(e, A::NAME);

    db.attach(e, B);
    assert!(db.last_modified(e, B::NAME) > old);
    assert_eq!(db.last_modified(e, A::NAME), old);
}

#[test]
fn absent_members_are_not_written() {
    let db = Ecs::open_in_memory();
    let e = db.new_entity((Some(A), None::<B>, Some(ComponentWithData(9))));
    assert!(db.has::<A>(e));
    assert!(!db.has::<B>(e));
    assert_eq!(db.component::<ComponentWithData>(e), Some(ComponentWithData(9)));
    assert_eq!(db.attach(e, None::<B>), 0);
    assert!(!db.has::<B>(e));
}

#[test]
fn marker_and_data_scenario() {
    let db = Ecs::open_in_memory();
    let first = db.new_entity(MarkerComponent);
    db.attach(first, ComponentWithData(1234));
    let second = db.new_entity(ComponentWithData(1234));

    let both = db.query::<(MarkerComponent, ComponentWithData)>();
    assert_eq!(both, vec![first]);
    assert_eq!(db.component::<MarkerComponent>(first), Some(MarkerComponent));
    assert_eq!(
        db.component::<ComponentWithData>(first),
        Some(ComponentWithData(1234))
    );

    assert_eq!(
        db.query_filtered::<EntityId, Without<MarkerComponent>>(),
        vec![second]
    );

    db.destroy(first);
    assert!(db.query::<MarkerComponent>().is_empty());
    assert!(db.query_filtered::<(), With<MarkerComponent>>().is_empty());
}

#[test]
fn or_scenario_in_both_orders() {
    let db = Ecs::open_in_memory();
    let a = db.new_entity(A);
    let b = db.new_entity((A, B));
    let c = db.new_entity((A, C));

    assert_eq!(
        db.select::<EntityId, Or<(With<A>, With<B>, With<C>)>, ()>((), OrderBy::Asc),
        vec![a, b, c]
    );
    assert_eq!(
        db.select::<EntityId, Or<(With<A>, With<B>, With<C>)>, ()>((), OrderBy::Desc),
        vec![c, b, a]
    );
}

#[test]
fn presence_algebra() {
    let db = Ecs::open_in_memory();
    let a = db.new_entity(A);
    let b = db.new_entity(B);
    let ab = db.new_entity((A, B));
    let c = db.new_entity(C);

    assert!(db
        .query_filtered::<EntityId, (With<A>, Without<A>)>()
        .is_empty());

    let with_a = db.query_filtered::<EntityId, With<A>>();
    let with_b = db.query_filtered::<EntityId, With<B>>();
    assert_eq!(with_a, vec![a, ab]);
    assert_eq!(with_b, vec![b, ab]);
    assert_eq!(
        db.query_filtered::<EntityId, Or<(With<A>, With<B>)>>(),
        vec![a, b, ab]
    );
    assert_eq!(
        db.query_filtered::<EntityId, (With<A>, With<B>)>(),
        vec![ab]
    );
    assert_eq!(
        db.query_filtered::<EntityId, Without<(A, B)>>(),
        vec![c]
    );
}

#[test]
fn ranges_include_their_bounds() {
    let db = Ecs::open_in_memory();
    let two = db.new_entity(ComponentWithData(2));
    let ten = db.new_entity(ComponentWithData(10));
    let hundred = db.new_entity(ComponentWithData(100));
    let _other = db.new_entity(A);

    assert_eq!(
        db.find(ComponentWithData(2)..ComponentWithData(10)),
        vec![two, ten]
    );
    assert_eq!(
        db.find(ComponentWithData(3)..ComponentWithData(100)),
        vec![ten, hundred]
    );
    assert_eq!(db.find(ComponentWithData(10)..), vec![ten, hundred]);
    assert_eq!(db.find(ComponentWithData(0)..), vec![two, ten, hundred]);
    assert_eq!(db.find(..ComponentWithData(10)), vec![two, ten]);
    assert_eq!(db.find(..ComponentWithData(1)), Vec::<EntityId>::new());
}

#[test]
fn many_nested_placeholders_bind_to_their_own_values() {
    let db = Ecs::open_in_memory();
    let mut ids = Vec::new();
    for n in 0..12 {
        ids.push(db.new_entity(ComponentWithData(n)));
    }
    let members: Vec<ir::FilterExpression> = (0..12)
        .map(|n| {
            ir::FilterExpression::with_component_data(
                ComponentWithData::NAME,
                StoreValue::Text(n.to_string()),
            )
        })
        .collect();
    let nested = ir::FilterExpression::and(vec![
        ir::FilterExpression::or(members),
        ir::FilterExpression::without_component(A::NAME),
    ]);
    let found = db.fetch(ir::Query {
        filter: nested,
        order_by: OrderBy::Asc,
    });
    assert_eq!(found, ids);
}

#[test]
fn ordinal_orders_numbers_by_value() {
    let db = Ecs::open_in_memory();
    let result: bool = db
        .conn
        .query_row(
            "select extract_ordinal(json_quote(10)) > extract_ordinal(json_quote(2))",
            [],
            |row| row.get(0),
        )
        .unwrap();
    assert_eq!(result, true);
    let as_text: bool = db
        .conn
        .query_row("select '10' > '2'", [], |row| row.get(0))
        .unwrap();
    assert_eq!(as_text, false);
}

#[test]
fn changes_are_logged_in_the_order_of_writing() {
    let db = Ecs::open_in_memory();
    let untracked = db.new_entity(A);
    assert!(db.changes().is_empty());

    db.conn.execute_batch(CHANGE_TRACKING).unwrap();
    let a = Some(A::NAME.to_string());
    let n = Some(ComponentWithData::NAME.to_string());

    let e = db.new_entity((A, ComponentWithData(1)));
    db.attach(e, ComponentWithData(1));
    db.attach(e, ComponentWithData(2));
    db.detach::<B>(e);
    db.detach::<A>(e);
    db.attach(untracked, ComponentWithData(3));
    db.destroy(e);
    db.destroy(e);

    assert_eq!(
        db.logged(),
        vec![
            (e, None, Change::Create),
            (e, a.clone(), Change::Attach),
            (e, n.clone(), Change::Attach),
            (e, n.clone(), Change::Attach),
            (e, a, Change::Detach),
            (untracked, n.clone(), Change::Attach),
            (e, n, Change::Detach),
            (e, None, Change::Destroy),
        ]
    );
    let sequences: Vec<i64> = db.changes().iter().map(|record| record.sequence).collect();
    assert!(sequences.windows(2).all(|pair| pair[0] < pair[1]));
}

#[test]
fn the_log_is_truncated_up_to_a_watermark() {
    let db = Ecs::open_in_memory();
    db.conn.execute_batch(CHANGE_TRACKING).unwrap();
    let e = db.new_entity(A);
    db.attach(e, B);
    let all = db.changes();
    assert_eq!(all.len(), 3);

    db.execute(&truncate_statement(all[1].sequence));
    let rest = db.changes();
    assert_eq!(rest, vec![ChangeRecord {
        sequence: all[2].sequence,
        entity: e,
        component: Some(B::NAME.to_string()),
        change: Change::Attach,
    }]);

    db.execute(&truncate_statement(i64::MAX));
    assert!(db.changes().is_empty());
    db.attach(e, C);
    assert!(db.changes()[0].sequence > all[2].sequence);

    db.conn.execute_batch(NO_CHANGE_TRACKING).unwrap();
    db.detach::<C>(e);
    assert_eq!(db.changes().len(), 1);
}

#[derive(Debug, PartialEq, Default)]
struct TestResource(pub i32);

impl ComponentWrite<TestResource> for TestResource {
    fn to_rusqlite(component: &TestResource) -> Result<StoreValue, StorageError> {
        Ok(JsonStorage::to_rusqlite(component.0.to_string()))
    }
}

impl ComponentRead<TestResource> for TestResource {
    fn from_rusqlite(value: &StoreValue) -> Result<TestResource, StorageError> {
        let json = JsonStorage::from_rusqlite(value)?;
        json.parse()
            .map(TestResource)
            .map_err(|e: std::num::ParseIntError| StorageError::new(e.to_string()))
    }
}

impl Component for TestResource {
    type Storage = JsonStorage;
    const NAME: &'static str = "ecsdb::resource::tests::TestResource";
}

impl Resource for TestResource {}

#[test]
fn ecs_resource() {
    let ecs = Ecs::open_in_memory();

    assert!(ecs.resource::<TestResource>().is_none());

    ecs.attach_resource(TestResource(42));
    assert_eq!(ecs.resource::<TestResource>().unwrap(), TestResource(42));

    ecs.attach_resource(TestResource(23));
    assert_eq!(ecs.resource::<TestResource>().unwrap(), TestResource(23));

    ecs.detach_resource::<TestResource>();
    assert!(ecs.resource::<TestResource>().is_none());

    ecs.modify_resource::<TestResource>(|resource| resource.0 = 42);
    assert_eq!(ecs.resource::<TestResource>().unwrap(), TestResource(42));

    ecs.modify_resource::<TestResource>(|resource| *resource = TestResource(1234));

    assert_eq!(ecs.resource::<TestResource>().unwrap(), TestResource(1234));
}

#[test]
fn an_entity_was_last_modified_when_its_latest_record_was() {
    let db = Ecs::open_in_memory();
    assert_eq!(db.entity_last_modified(1), None);

    db.attach(1, (A, B));
    db.conn
        .execute(
            "update components set last_modified = '2000-01-01T00:00:00.000Z' where component = ?1",
            [A::NAME],
        )
        .unwrap();
    db.conn
        .execute(
            "update components set last_modified = '2001-01-01T00:00:00.000Z' where component = ?1",
            [B::NAME],
        )
        .unwrap();
    assert_eq!(
        db.entity_last_modified(1),
        Some("2001-01-01T00:00:00.000Z".to_string())
    );

    db.detach::<B>(1);
    assert_eq!(
        db.entity_last_modified(1),
        Some("2000-01-01T00:00:00.000Z".to_string())
    );
    db.destroy(1);
    assert_eq!(db.entity_last_modified(1), None);
}

#[test]
fn a_new_entitys_repeated_member_is_written_once() {
    let db = Ecs::open_in_memory();
    db.conn.execute_batch(CHANGE_TRACKING).unwrap();
    let n = Some(ComponentWithData::NAME.to_string());

    let same = db.new_entity((ComponentWithData(7), ComponentWithData(7)));
    assert_eq!(db.rows(same, ComponentWithData::NAME), 1);
    assert_eq!(
        db.logged(),
        vec![(same, None, Change::Create), (same, n.clone(), Change::Attach)]
    );

    let other = db.new_entity((ComponentWithData(7), A, ComponentWithData(8)));
    assert_eq!(db.component::<ComponentWithData>(other), Some(ComponentWithData(8)));
    assert_eq!(
        db.logged()[2..],
        vec![
            (other, None, Change::Create),
            (other, n.clone(), Change::Attach),
            (other, Some(A::NAME.to_string()), Change::Attach),
            (other, n, Change::Attach),
        ]
    );
}

#[test]
fn a_new_entity_leaves_the_others_as_they_are() {
    let db = Ecs::open_in_memory();
    db.attach(7, ComponentWithData(1));
    db.attach(250, (A, ComponentWithData(2)));
    db.conn
        .execute(
            "update components set last_modified = '2000-01-01T00:00:00.000Z'",
            [],
        )
        .unwrap();

    let new = db.new_entity((None::<A>, Some(B), ComponentWithData(3), None::<C>));
    assert_eq!(new, 251);
    assert_eq!(db.component_names(new), vec![B::NAME, ComponentWithData::NAME]);
    assert_eq!(db.component::<ComponentWithData>(new), Some(ComponentWithData(3)));

    assert_eq!(db.component::<ComponentWithData>(7), Some(ComponentWithData(1)));
    assert_eq!(db.component::<ComponentWithData>(250), Some(ComponentWithData(2)));
    assert_eq!(db.component_names(250), vec![A::NAME, ComponentWithData::NAME]);
    for entity in [7, 250] {
        assert_eq!(
            db.entity_last_modified(entity),
            Some("2000-01-01T00:00:00.000Z".to_string())
        );
    }
}

#[test]
fn a_member_that_matches_everything_is_dropped_before_lowering() {
    let db = Ecs::open_in_memory();
    let a = db.new_entity(A);
    let _b = db.new_entity(B);

    assert_eq!(db.query_filtered::<EntityId, Or<((), With<A>)>>(), vec![a]);
    assert_eq!(db.query_filtered::<EntityId, Or<(With<A>,)>>(), vec![a]);
    assert_eq!(db.query_filtered::<EntityId, ((), With<A>)>(), vec![a]);
    assert_eq!(db.query_filtered::<EntityId, Or<((),)>>().len(), 2);
}

fn stored(db: &Ecs, entity: EntityId, component: &str) -> StoreValue {
    db.conn
        .query_row(
            "select data from components where entity = ?1 and component = ?2",
            (entity, component),
            |row| Ok(from_sql(row.get_ref(0)?)),
        )
        .unwrap()
}

fn write(db: &Ecs, entity: EntityId, component: &'static str, value: StoreValue) -> usize {
    let statements = Entity::with_id(entity).attach_data(vec![(component, Some(value))]);
    statements.iter().map(|s| db.execute(s)).sum()
}

#[test]
fn the_engine_compares_numbers_by_their_amount() {
    let db = Ecs::open_in_memory();
    let e = db.new_entity(A);
    let one = StoreValue::Real(1.0f64.to_bits());

    assert_eq!(write(&db, e, "n", StoreValue::Integer(1)), 1);
    assert_eq!(write(&db, e, "n", StoreValue::Integer(1)), 0);
    assert_eq!(write(&db, e, "n", one), 0);
    assert_eq!(stored(&db, e, "n"), StoreValue::Integer(1));

    assert_eq!(write(&db, e, "n", StoreValue::Integer(2)), 1);
    assert_eq!(stored(&db, e, "n"), StoreValue::Integer(2));
    assert_eq!(write(&db, e, "n", StoreValue::Real(2.5f64.to_bits())), 1);
    assert_eq!(stored(&db, e, "n"), StoreValue::Real(2.5f64.to_bits()));
}

#[test]
fn values_that_are_no_numbers_are_compared_as_written() {
    let db = Ecs::open_in_memory();
    let e = db.new_entity(A);
    let values = [
        StoreValue::Null,
        StoreValue::Text("1".to_string()),
        StoreValue::Blob(vec![b'1']),
        StoreValue::Text("1.0".to_string()),
        StoreValue::Integer(1),
        StoreValue::Blob(vec![]),
        StoreValue::Text(String::new()),
        StoreValue::Null,
    ];
    assert_eq!(write(&db, e, "v", StoreValue::Integer(0)), 1);
    for value in values {
        let again = match &value {
            StoreValue::Null => StoreValue::Null,
            StoreValue::Integer(i) => StoreValue::Integer(*i),
            StoreValue::Real(bits) => StoreValue::Real(*bits),
            StoreValue::Text(text) => StoreValue::Text(text.clone()),
            StoreValue::Blob(bytes) => StoreValue::Blob(bytes.clone()),
        };
        let expected = to_sql(&value);
        assert_eq!(write(&db, e, "v", value), 1);
        assert_eq!(to_sql(&stored(&db, e, "v")), expected);
        assert_eq!(write(&db, e, "v", again), 0);
    }
}
