use ecsdb::component::{NullStorage, StorageError};
use ecsdb::component::registration::Storage;
use ecsdb::{Component, ComponentRead, ComponentWrite, Resource, StoreValue};

struct Foo;

impl ComponentWrite<Foo> for Foo {
    fn to_rusqlite(_component: &Foo) -> Result<StoreValue, StorageError> {
        Ok(NullStorage::to_rusqlite())
    }
}

impl ComponentRead<Foo> for Foo {
    fn from_rusqlite(value: &StoreValue) -> Result<Foo, StorageError> {
        NullStorage::from_rusqlite(value).map(|_| Foo)
    }
}

impl Component for Foo {
    type Storage = NullStorage;
    const NAME: &'static str = "derive_test::Foo";
}

impl Resource for Foo {}

#[test]
fn test_resource() {
    assert_eq!(Foo::resource_name(), "derive_test::Foo".to_string());
    assert_eq!(Storage::select(None, false), Storage::Null);
    assert_eq!(Foo::to_rusqlite(&Foo).unwrap(), StoreValue::Null);
}
