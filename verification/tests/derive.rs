use ecsdb::component::registration::{component_name, Storage};
use ecsdb::component::{BlobStorage, JsonStorage, NullStorage, StorageError};
use ecsdb::{Component, ComponentRead, ComponentWrite, Resource, StoreValue};

struct MarkerComponent;

impl ComponentWrite<MarkerComponent> for MarkerComponent {
    fn to_rusqlite(_component: &MarkerComponent) -> Result<StoreValue, StorageError> {
        Ok(NullStorage::to_rusqlite())
    }
}

impl ComponentRead<MarkerComponent> for MarkerComponent {
    fn from_rusqlite(value: &StoreValue) -> Result<MarkerComponent, StorageError> {
        NullStorage::from_rusqlite(value).map(|_| MarkerComponent)
    }
}

impl Component for MarkerComponent {
    type Storage = NullStorage;
    const NAME: &'static str = "ecsdb::tests::MarkerComponent";
}

struct ComponentWithData(u64);

impl ComponentWrite<ComponentWithData> for ComponentWithData {
    fn to_rusqlite(component: &ComponentWithData) -> Result<StoreValue, StorageError> {
        Ok(JsonStorage::to_rusqlite(component.0.to_string()))
    }
}

impl ComponentRead<ComponentWithData> for ComponentWithData {
    fn from_rusqlite(value: &StoreValue) -> Result<ComponentWithData, StorageError> {
        let json = JsonStorage::from_rusqlite(value)?;
        json.parse()
            .map(ComponentWithData)
            .map_err(|e: std::num::ParseIntError| StorageError::new(e.to_string()))
    }
}

impl Component for ComponentWithData {
    type Storage = JsonStorage;
    const NAME: &'static str = "ecsdb::tests::ComponentWithData";
}

#[test]
fn derive_valid_component_name() {
    assert_eq!(
        MarkerComponent::component_name(),
        "ecsdb::tests::MarkerComponent"
    );
    assert_eq!(
        ComponentWithData::component_name(),
        "ecsdb::tests::ComponentWithData"
    );
}

struct Foo;

impl ComponentWrite<Foo> for Foo {
    fn to_rusqlite(_component: &Foo) -> Result<StoreValue, StorageError> {
        let json = serde_json::to_string(&()).map_err(|e| StorageError::new(e.to_string()))?;
        Ok(JsonStorage::to_rusqlite(json))
    }
}

impl ComponentRead<Foo> for Foo {
    fn from_rusqlite(value: &StoreValue) -> Result<Foo, StorageError> {
        let json = JsonStorage::from_rusqlite(value)?;
        serde_json::from_str::<()>(&json)
            .map(|_| Foo)
            .map_err(|e| StorageError::new(e.to_string()))
    }
}

impl Component for Foo {
    type Storage = JsonStorage;
    const NAME: &'static str = "derive_test::Foo";
}

struct Foo2(pub Vec<u8>);

impl From<Vec<u8>> for Foo2 {
    fn from(value: Vec<u8>) -> Self {
        Self(value)
    }
}

impl ComponentWrite<Foo2> for Foo2 {
    fn to_rusqlite(component: &Foo2) -> Result<StoreValue, StorageError> {
        Ok(BlobStorage::to_rusqlite(&component.0))
    }
}

impl ComponentRead<Foo2> for Foo2 {
    fn from_rusqlite(value: &StoreValue) -> Result<Foo2, StorageError> {
        BlobStorage::from_rusqlite(value).map(Foo2::from)
    }
}

impl Component for Foo2 {
    type Storage = BlobStorage;
    const NAME: &'static str = "derive_test::Foo2";
}

#[test]
fn test_component() {
    assert_eq!(Foo::component_name(), "derive_test::Foo".to_string());
    assert_eq!(Foo2::component_name(), "derive_test::Foo2".to_string());

    let _: Vec<u8> = Foo2(vec![]).0;
    let _ = Foo2::from(vec![]);

    assert_eq!(Storage::select(Storage::parse("json"), false), Storage::Json);
    assert_eq!(
        Foo::to_rusqlite(&Foo).unwrap(),
        StoreValue::Text("null".to_string())
    );
    assert!(Foo::from_rusqlite(&StoreValue::Text("null".to_string())).is_ok());
    assert!(Foo::from_rusqlite(&StoreValue::Null).is_err());
    assert_eq!(Storage::select(Storage::parse("blob"), true), Storage::Blob);
    assert_eq!(
        Foo2::to_rusqlite(&Foo2(vec![1, 2])).unwrap(),
        StoreValue::Blob(vec![1, 2])
    );
}

struct X;

impl ComponentWrite<X> for X {
    fn to_rusqlite(_component: &X) -> Result<StoreValue, StorageError> {
        Ok(NullStorage::to_rusqlite())
    }
}

impl ComponentRead<X> for X {
    fn from_rusqlite(value: &StoreValue) -> Result<X, StorageError> {
        NullStorage::from_rusqlite(value).map(|_| X)
    }
}

impl Component for X {
    type Storage = NullStorage;
    const NAME: &'static str = "foo::Bar";
}

impl Resource for X {}

#[test]
fn derive_name_attribute() {
    assert_eq!(X::component_name(), "foo::Bar");
    assert_eq!(X::resource_name(), "foo::Bar");
}

#[test]
fn names_follow_the_path_of_the_type() {
    assert_eq!(
        component_name("ecsdb::tests", "MarkerComponent", None),
        MarkerComponent::component_name()
    );
    assert_eq!(
        component_name("ecsdb::tests", "ComponentWithData", None),
        ComponentWithData::NAME
    );
    assert_eq!(component_name("derive_test", "Foo", None), Foo::NAME);
    assert_eq!(component_name("derive_test", "X", Some("foo::Bar")), X::NAME);
    assert_eq!(component_name("", "", None), "::");
}

#[test]
fn the_strategy_is_the_declared_one_or_follows_the_fields() {
    assert_eq!(Storage::parse("json"), Some(Storage::Json));
    assert_eq!(Storage::parse("blob"), Some(Storage::Blob));
    assert_eq!(Storage::parse("null"), Some(Storage::Null));
    assert_eq!(Storage::parse("xml"), None);
    assert_eq!(Storage::parse("Json"), None);

    assert_eq!(Storage::select(None, false), Storage::Null);
    assert_eq!(Storage::select(None, true), Storage::Json);
    for has_fields in [false, true] {
        for declared in [Storage::Json, Storage::Blob, Storage::Null] {
            assert_eq!(Storage::select(Some(declared), has_fields), declared);
        }
    }
}
