use ecsdb::changes::{Change, ChangeRecord};
use ecsdb::component::{
    BlobStorage, Bundle, BundleComponent, JsonStorage, NullStorage, StorageError, StorageStrategy,
};
use ecsdb::{Component, ComponentRead, ComponentWrite, DynComponent, Error, StoreValue};

fn values() -> Vec<StoreValue> {
    vec![
        StoreValue::Null,
        StoreValue::Integer(-7),
        StoreValue::Real(1.5f64.to_bits()),
        StoreValue::Text("{\"a\":1}".to_string()),
        StoreValue::Blob(vec![0, 159, 255]),
    ]
}

#[test]
fn json_round_trip() {
    for json in ["1234", "\"text\"", "{\"a\":[1,2,null]}", "", "ünïcödé"] {
        let stored = JsonStorage::to_rusqlite(json.to_string());
        assert_eq!(stored, StoreValue::Text(json.to_string()));
        assert_eq!(JsonStorage::from_rusqlite(&stored), Ok(json));
    }
}

#[test]
fn blob_round_trip() {
    for bytes in [vec![], vec![0u8], b"asdfasdf".to_vec(), vec![255, 0, 128]] {
        let stored = BlobStorage::to_rusqlite(&bytes);
        assert_eq!(stored, StoreValue::Blob(bytes.clone()));
        assert_eq!(BlobStorage::from_rusqlite(&stored), Ok(bytes));
    }
}

#[test]
fn null_round_trip() {
    let stored = NullStorage::to_rusqlite();
    assert_eq!(stored, StoreValue::Null);
    assert_eq!(NullStorage::from_rusqlite(&stored), Ok(()));
}

#[test]
fn a_strategy_rejects_the_other_kinds() {
    for value in values() {
        let kind = value.kind();
        match &value {
            StoreValue::Text(_) => {
                assert!(JsonStorage::from_rusqlite(&value).is_ok());
                assert!(JsonStorage::expects(&value));
            }
            _ => {
                assert_eq!(
                    JsonStorage::from_rusqlite(&value),
                    Err(StorageError(format!("Unexpected type {kind}")))
                );
                assert!(!JsonStorage::expects(&value));
            }
        }
        match &value {
            StoreValue::Blob(_) => {
                assert!(BlobStorage::from_rusqlite(&value).is_ok());
                assert!(BlobStorage::expects(&value));
            }
            _ => {
                assert_eq!(
                    BlobStorage::from_rusqlite(&value),
                    Err(StorageError(format!("Unexpected type {kind}")))
                );
                assert!(!BlobStorage::expects(&value));
            }
        }
        match &value {
            StoreValue::Null => {
                assert!(NullStorage::from_rusqlite(&value).is_ok());
                assert!(NullStorage::expects(&value));
            }
            _ => {
                assert_eq!(
                    NullStorage::from_rusqlite(&value),
                    Err(StorageError(format!("Unexpected type {kind}")))
                );
                assert!(!NullStorage::expects(&value));
            }
        }
    }
}

#[test]
fn kinds_have_names() {
    let names: Vec<&str> = values().iter().map(|v| v.kind()).collect();
    assert_eq!(names, vec!["Null", "Integer", "Real", "Text", "Blob"]);
    assert!(StoreValue::Null.is_null());
    assert!(!StoreValue::Integer(0).is_null());
    assert_eq!(values()[4].clone(), StoreValue::Blob(vec![0, 159, 255]));
}

#[test]
fn errors_in_words() {
    let cause = StorageError::new("Unexpected type Blob".to_string());
    assert_eq!(
        cause.to_string(),
        "Error reading/writing Component: Unexpected type Blob"
    );
    assert_eq!(
        StorageError::unexpected_type(&StoreValue::Integer(1)),
        StorageError("Unexpected type Integer".to_string())
    );
    assert_eq!(
        Error::ComponentStorage(StorageError::new("x".to_string())).to_string(),
        "Error reading/writing Component: x"
    );
    assert_eq!(
        Error::Database("no such table".to_string()).to_string(),
        "Database Error: no such table"
    );
}

#[derive(Debug, PartialEq)]
struct Marker;

impl ComponentWrite<Marker> for Marker {
    fn to_rusqlite(_component: &Marker) -> Result<StoreValue, StorageError> {
        Ok(NullStorage::to_rusqlite())
    }
}

impl ComponentRead<Marker> for Marker {
    fn from_rusqlite(value: &StoreValue) -> Result<Marker, StorageError> {
        NullStorage::from_rusqlite(value).map(|_| Marker)
    }
}

impl Component for Marker {
    type Storage = NullStorage;
    const NAME: &'static str = "tests::Marker";
}

#[derive(Debug, PartialEq)]
struct Count(u64);

impl ComponentWrite<Count> for Count {
    fn to_rusqlite(component: &Count) -> Result<StoreValue, StorageError> {
        Ok(JsonStorage::to_rusqlite(component.0.to_string()))
    }
}

impl ComponentRead<Count> for Count {
    fn from_rusqlite(value: &StoreValue) -> Result<Count, StorageError> {
        let json = JsonStorage::from_rusqlite(value)?;
        json.parse()
            .map(Count)
            .map_err(|e: std::num::ParseIntError| StorageError::new(e.to_string()))
    }
}

impl Component for Count {
    type Storage = JsonStorage;
    const NAME: &'static str = "tests::Count";
}

/// A component that cannot be written.
#[derive(Debug, PartialEq)]
struct Broken;

impl ComponentWrite<Broken> for Broken {
    fn to_rusqlite(_component: &Broken) -> Result<StoreValue, StorageError> {
        Err(StorageError::new("broken".to_string()))
    }
}

impl ComponentRead<Broken> for Broken {
    fn from_rusqlite(_value: &StoreValue) -> Result<Broken, StorageError> {
        Ok(Broken)
    }
}

impl Component for Broken {
    type Storage = JsonStorage;
    const NAME: &'static str = "tests::Broken";
}

#[test]
fn a_component_is_a_bundle_of_one() {
    assert_eq!(<Count as Bundle>::component_names(), vec!["tests::Count"]);
    assert_eq!(
        Bundle::to_rusqlite(&Count(5)),
        Ok(vec![(
            "tests::Count",
            Some(StoreValue::Text("5".to_string()))
        )])
    );
    assert_eq!(
        <Option<Count> as Bundle>::component_names(),
        vec!["tests::Count"]
    );
    assert_eq!(
        Bundle::to_rusqlite(&None::<Count>),
        Ok(vec![("tests::Count", None)])
    );
    assert_eq!(
        Bundle::to_rusqlite(&Some(Marker)),
        Ok(vec![("tests::Marker", Some(StoreValue::Null))])
    );
    assert_eq!(<() as Bundle>::component_names(), Vec::<&str>::new());
    assert_eq!(Bundle::to_rusqlite(&()), Ok(vec![]));
}

#[test]
fn a_tuple_is_a_bundle_of_its_members_in_order() {
    type Three = (Marker, Option<Count>, Count);
    assert_eq!(
        <Three as Bundle>::component_names(),
        vec!["tests::Marker", "tests::Count", "tests::Count"]
    );
    assert_eq!(
        (Marker, None::<Count>, Count(7)).to_rusqlite(),
        Ok(vec![
            ("tests::Marker", Some(StoreValue::Null)),
            ("tests::Count", None),
            ("tests::Count", Some(StoreValue::Text("7".to_string()))),
        ])
    );
    assert_eq!(
        (Count(1),).to_rusqlite(),
        Ok(vec![(
            "tests::Count",
            Some(StoreValue::Text("1".to_string()))
        )])
    );
    let sixteen = (
        Count(0),
        Count(1),
        Count(2),
        Count(3),
        Count(4),
        Count(5),
        Count(6),
        Count(7),
        Count(8),
        Count(9),
        Count(10),
        Count(11),
        Count(12),
        Count(13),
        Count(14),
        Count(15),
    );
    let data = sixteen.to_rusqlite().unwrap();
    assert_eq!(data.len(), 16);
    assert_eq!(data[15].1, Some(StoreValue::Text("15".to_string())));
}

#[test]
fn a_bundle_fails_with_its_first_failing_member() {
    assert_eq!(
        (Count(1), Broken, Marker).to_rusqlite(),
        Err(StorageError("broken".to_string()))
    );
    assert_eq!(
        Bundle::to_rusqlite(&Broken),
        Err(StorageError("broken".to_string()))
    );
    assert_eq!(
        BundleComponent::to_rusqlite(&Some(Broken)),
        Err(StorageError("broken".to_string()))
    );
    assert_eq!(BundleComponent::to_rusqlite(&None::<Broken>), Ok(None));
    assert_eq!(<Option<Broken> as BundleComponent>::NAME, "tests::Broken");
}

#[test]
fn dyn_components_are_read_by_their_strategy() {
    let stored = DynComponent::from_typed(&Count(12)).unwrap();
    assert_eq!(stored.name(), "tests::Count");
    assert_eq!(stored.1, StoreValue::Text("12".to_string()));
    assert_eq!(stored.as_typed::<Count>(), Ok(Count(12)));
    assert_eq!(
        stored.as_typed::<Marker>(),
        Err(StorageError("Unexpected type Text".to_string()))
    );
    assert_eq!(stored.into_typed::<Count>(), Ok(Count(12)));

    let marker = DynComponent::from_typed(&Marker).unwrap();
    assert_eq!(marker.1, StoreValue::Null);
    assert_eq!(marker.as_typed::<Marker>(), Ok(Marker));
    assert_eq!(
        marker.into_typed::<Count>(),
        Err(StorageError("Unexpected type Null".to_string()))
    );

    assert!(DynComponent::from_typed(&Broken).is_err());

    let blob = DynComponent("tests::Count", StoreValue::Blob(vec![1]));
    assert_eq!(
        blob.as_typed::<Count>(),
        Err(StorageError("Unexpected type Blob".to_string()))
    );
    let text = DynComponent("tests::Count", StoreValue::Text("x".to_string()));
    assert!(text.as_typed::<Count>().is_err());
}

#[test]
fn dyn_components_as_json() {
    let text = DynComponent("a", StoreValue::Text("{\"a\": [1, true]}".to_string()));
    let json = text.as_json().unwrap();
    assert_eq!(json["a"][0], 1);
    assert_eq!(json["a"][1], true);

    let null = DynComponent("a", StoreValue::Null);
    assert_eq!(null.as_json(), Some(serde_json::Value::Null));

    let invalid = DynComponent("a", StoreValue::Text("{".to_string()));
    assert_eq!(invalid.as_json(), None);

    for value in [
        StoreValue::Integer(1),
        StoreValue::Real(0),
        StoreValue::Blob(b"1".to_vec()),
    ] {
        assert_eq!(DynComponent("a", value).as_json(), None);
    }
}

#[test]
fn changes_have_words() {
    for (change, word) in [
        (Change::Create, "create"),
        (Change::Attach, "attach"),
        (Change::Detach, "detach"),
        (Change::Destroy, "destroy"),
    ] {
        assert_eq!(change.as_str(), word);
        assert_eq!(Change::parse(word), Some(change));
    }
    assert_eq!(Change::parse("Create"), None);
    assert_eq!(Change::parse(""), None);

    let text = |s: &str| StoreValue::Text(s.to_string());
    assert_eq!(
        ChangeRecord::from_row(
            &StoreValue::Integer(3),
            &StoreValue::Integer(100),
            &text("a::B"),
            &text("detach")
        ),
        Ok(ChangeRecord {
            sequence: 3,
            entity: 100,
            component: Some("a::B".to_string()),
            change: Change::Detach
        })
    );
    assert_eq!(
        ChangeRecord::from_row(
            &StoreValue::Integer(4),
            &StoreValue::Integer(100),
            &StoreValue::Null,
            &text("destroy")
        ),
        Ok(ChangeRecord {
            sequence: 4,
            entity: 100,
            component: None,
            change: Change::Destroy
        })
    );
    assert_eq!(
        ChangeRecord::from_row(
            &text("4"),
            &StoreValue::Integer(100),
            &StoreValue::Null,
            &text("destroy")
        ),
        Err(StorageError("Unexpected type Text".to_string()))
    );
    assert_eq!(
        ChangeRecord::from_row(
            &StoreValue::Integer(4),
            &StoreValue::Null,
            &StoreValue::Null,
            &text("destroy")
        ),
        Err(StorageError("Unexpected type Null".to_string()))
    );
    assert_eq!(
        ChangeRecord::from_row(
            &StoreValue::Integer(4),
            &StoreValue::Integer(100),
            &StoreValue::Blob(vec![]),
            &text("destroy")
        ),
        Err(StorageError("Unexpected type Blob".to_string()))
    );
    assert_eq!(
        ChangeRecord::from_row(
            &StoreValue::Integer(4),
            &StoreValue::Integer(100),
            &StoreValue::Null,
            &text("destroyed")
        ),
        Err(StorageError("Unexpected change".to_string()))
    );
    assert_eq!(
        ChangeRecord::from_row(
            &StoreValue::Integer(4),
            &StoreValue::Integer(100),
            &StoreValue::Null,
            &StoreValue::Integer(1)
        ),
        Err(StorageError("Unexpected type Integer".to_string()))
    );
}
