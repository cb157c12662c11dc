//! Components: named, typed records, and the strategies that turn them into
//! stored values and back.

pub mod registration;
pub mod tuples;

use crate::value::{StoreValue, StoreValueView};
use vstd::prelude::*;

verus! {

/// Why a component could not be written or read.
#[derive(Debug, PartialEq)]
pub struct StorageError(pub String);

impl View for StorageError {
    type V = Seq<char>;

    open spec fn view(&self) -> Seq<char> {
        self.0@
    }
}

/// The model of the outcome of writing a component.
pub open spec fn written_view(
    stored: Result<StoreValue, StorageError>,
) -> Result<StoreValueView, Seq<char>> {
    match stored {
        Ok(value) => Ok(value@),
        Err(error) => Err(error@),
    }
}

/// The model of the outcome of reading a component.
pub open spec fn read_view<C>(component: Result<C, StorageError>) -> Result<C, Seq<char>> {
    match component {
        Ok(component) => Ok(component),
        Err(error) => Err(error@),
    }
}

/// How a value of type `C` is written to the store.
pub trait ComponentWrite<C> {
    /// What `component` is stored as, or the cause for which it cannot be.
    ///
    /// An implementation that leaves this as it is says no more than that
    /// `to_rusqlite` is a function of the component.
    open spec fn written(component: &C) -> Result<StoreValueView, Seq<char>> {
        arbitrary()
    }

    fn to_rusqlite(component: &C) -> (stored: Result<StoreValue, StorageError>)
        ensures
            written_view(stored) == Self::written(component),
    ;
}

/// How a value of type `C` is read from the store.
pub trait ComponentRead<C> {
    /// The component that `value` holds, or the cause for which it holds none.
    ///
    /// An implementation that leaves this as it is says no more than that
    /// `from_rusqlite` is a function of the stored value.
    open spec fn read(value: StoreValueView) -> Result<C, Seq<char>> {
        arbitrary()
    }

    fn from_rusqlite(value: &StoreValue) -> (component: Result<C, StorageError>)
        ensures
            read_view(component) == Self::read(value@),
    ;
}

/// A storage strategy: the one kind of stored value that it writes and reads.
pub trait StorageStrategy {
    /// Whether the strategy expects a stored value of this kind.
    ///
    /// An implementation that leaves this as it is says no more than that
    /// `expects` is a function of the stored value.
    open spec fn accepts(value: StoreValueView) -> bool {
        arbitrary()
    }

    fn expects(value: &StoreValue) -> (expected: bool)
        ensures
            expected == Self::accepts(value@),
    ;
}

/// A typed record with a stable name, under which it is stored and found.
pub trait Component: Sized + ComponentRead<Self> + ComponentWrite<Self> {
    /// The strategy by which the component is stored.
    type Storage: StorageStrategy;

    /// The name under which the component is stored.
    const NAME: &'static str;

    fn component_name() -> (name: &'static str)
        ensures
            name@ == Self::NAME@,
    {
        Self::NAME
    }
}

impl StorageError {
    /// An error with the given cause.
    pub fn new(cause: String) -> (error: Self)
        ensures
            error@ == cause@,
    {
        StorageError(cause)
    }

    /// The error for a stored value of a kind that the strategy does not expect.
    pub open spec fn unexpected(value: StoreValueView) -> Seq<char> {
        "Unexpected type "@ + StoreValue::kind_name(value)
    }

    /// The error for a stored value of a kind that the strategy does not expect.
    pub fn unexpected_type(value: &StoreValue) -> (error: Self)
        ensures
            error@ == Self::unexpected(value@),
    {
        let mut cause = String::from_str("Unexpected type ");
        cause.append(value.kind());
        StorageError(cause)
    }

    /// The error in words: a fixed prefix and the cause.
    pub fn to_string(&self) -> (text: String)
        ensures
            text@ == "Error reading/writing Component: "@ + self@,
    {
        let mut text = String::from_str("Error reading/writing Component: ");
        text.append(self.0.as_str());
        text
    }
}

/// The strategy that stores a component as the text of its JSON encoding.
pub struct JsonStorage;

impl JsonStorage {
    /// What the JSON text `json` is stored as.
    pub open spec fn encoded(json: Seq<char>) -> StoreValueView {
        StoreValueView::Text(json)
    }

    /// The JSON text that `value` holds; only text holds any.
    pub open spec fn decoded(value: StoreValueView) -> Result<Seq<char>, Seq<char>> {
        match value {
            StoreValueView::Text(json) => Ok(json),
            other => Err(StorageError::unexpected(other)),
        }
    }

    /// Stores the JSON text of a component.
    pub fn to_rusqlite(json: String) -> (stored: StoreValue)
        ensures
            stored@ == Self::encoded(json@),
    {
        StoreValue::Text(json)
    }

    /// Hands out the JSON text of a stored component, to be parsed; fails on
    /// any value that is not text.
    pub fn from_rusqlite(value: &StoreValue) -> (json: Result<&str, StorageError>)
        ensures
            match json {
                Ok(json) => Self::decoded(value@) == Ok::<Seq<char>, Seq<char>>(json@),
                Err(error) => Self::decoded(value@) == Err::<Seq<char>, Seq<char>>(error@),
            },
    {
        match value {
            StoreValue::Text(json) => Ok(json.as_str()),
            other => Err(StorageError::unexpected_type(other)),
        }
    }
}

/// The strategy that stores a component as its bytes.
pub struct BlobStorage;

impl BlobStorage {
    /// What the bytes of a component are stored as.
    pub open spec fn encoded(bytes: Seq<u8>) -> StoreValueView {
        StoreValueView::Blob(bytes)
    }

    /// The bytes that `value` holds; only a blob holds any.
    pub open spec fn decoded(value: StoreValueView) -> Result<Seq<u8>, Seq<char>> {
        match value {
            StoreValueView::Blob(bytes) => Ok(bytes),
            other => Err(StorageError::unexpected(other)),
        }
    }

    /// Stores a copy of the bytes of a component.
    pub fn to_rusqlite(bytes: &[u8]) -> (stored: StoreValue)
        ensures
            stored@ == Self::encoded(bytes@),
    {
        StoreValue::Blob(vstd::slice::slice_to_vec(bytes))
    }

    /// Hands out a copy of the bytes of a stored component; fails on any value
    /// that is not a blob.
    pub fn from_rusqlite(value: &StoreValue) -> (bytes: Result<Vec<u8>, StorageError>)
        ensures
            match bytes {
                Ok(bytes) => Self::decoded(value@) == Ok::<Seq<u8>, Seq<char>>(bytes@),
                Err(error) => Self::decoded(value@) == Err::<Seq<u8>, Seq<char>>(error@),
            },
    {
        match value {
            StoreValue::Blob(bytes) => Ok(bytes.clone()),
            other => Err(StorageError::unexpected_type(other)),
        }
    }
}

/// The strategy for markers, which have no payload: they are stored as null.
pub struct NullStorage;

impl NullStorage {
    /// What a marker is stored as.
    pub open spec fn encoded() -> StoreValueView {
        StoreValueView::Null
    }

    /// Whether `value` holds a marker; only null does.
    pub open spec fn decoded(value: StoreValueView) -> Result<(), Seq<char>> {
        match value {
            StoreValueView::Null => Ok(()),
            other => Err(StorageError::unexpected(other)),
        }
    }

    /// Stores a marker.
    pub fn to_rusqlite() -> (stored: StoreValue)
        ensures
            stored@ == Self::encoded(),
    {
        StoreValue::Null
    }

    /// Accepts null, and fails on any other value.
    pub fn from_rusqlite(value: &StoreValue) -> (marker: Result<(), StorageError>)
        ensures
            match marker {
                Ok(_) => Self::decoded(value@) == Ok::<(), Seq<char>>(()),
                Err(error) => Self::decoded(value@) == Err::<(), Seq<char>>(error@),
            },
    {
        match value {
            StoreValue::Null => Ok(()),
            other => Err(StorageError::unexpected_type(other)),
        }
    }
}

impl StorageStrategy for JsonStorage {
    open spec fn accepts(value: StoreValueView) -> bool {
        value is Text
    }

    fn expects(value: &StoreValue) -> (expected: bool) {
        match value {
            StoreValue::Text(_) => true,
            _ => false,
        }
    }
}

impl StorageStrategy for BlobStorage {
    open spec fn accepts(value: StoreValueView) -> bool {
        value is Blob
    }

    fn expects(value: &StoreValue) -> (expected: bool) {
        match value {
            StoreValue::Blob(_) => true,
            _ => false,
        }
    }
}

impl StorageStrategy for NullStorage {
    open spec fn accepts(value: StoreValueView) -> bool {
        value is Null
    }

    fn expects(value: &StoreValue) -> (expected: bool) {
        value.is_null()
    }
}

/// Round trip of the JSON strategy: what was stored for a text is read back
/// as that text.
pub proof fn lemma_json_round_trip(json: Seq<char>, value: StoreValueView)
    ensures
        JsonStorage::decoded(JsonStorage::encoded(json)) == Ok::<Seq<char>, Seq<char>>(json),
        JsonStorage::accepts(JsonStorage::encoded(json)),
        JsonStorage::decoded(value) is Ok <==> JsonStorage::accepts(value),
{
}

/// Round trip of the blob strategy: what was stored for some bytes is read
/// back as those bytes.
pub proof fn lemma_blob_round_trip(bytes: Seq<u8>, value: StoreValueView)
    ensures
        BlobStorage::decoded(BlobStorage::encoded(bytes)) == Ok::<Seq<u8>, Seq<char>>(bytes),
        BlobStorage::accepts(BlobStorage::encoded(bytes)),
        BlobStorage::decoded(value) is Ok <==> BlobStorage::accepts(value),
{
}

/// Round trip of the null strategy: a stored marker is read back, and nothing
/// but null is read as a marker.
pub proof fn lemma_null_round_trip(value: StoreValueView)
    ensures
        NullStorage::decoded(NullStorage::encoded()) == Ok::<(), Seq<char>>(()),
        NullStorage::accepts(NullStorage::encoded()),
        NullStorage::decoded(value) is Ok <==> value is Null,
        NullStorage::decoded(value) is Ok <==> NullStorage::accepts(value),
{
}

/// What a bundle hands to the store: for each member its component's name
/// and the value to store, or `None` where the member is absent and nothing
/// is to be written.
pub type BundleData = Vec<(&'static str, Option<StoreValue>)>;

/// The model of a value that may be absent.
pub open spec fn optional_view(value: Option<StoreValue>) -> Option<StoreValueView> {
    match value {
        Some(value) => Some(value@),
        None => None,
    }
}

/// The model of a bundle's data: each name with the model of its value.
pub open spec fn bundle_view(data: Seq<(&'static str, Option<StoreValue>)>) -> Seq<
    (Seq<char>, Option<StoreValueView>),
> {
    Seq::new(data.len(), |i: int| (data[i].0@, optional_view(data[i].1)))
}

/// The model of the outcome of writing a bundle.
pub open spec fn bundle_written_view(data: Result<BundleData, StorageError>) -> Result<
    Seq<(Seq<char>, Option<StoreValueView>)>,
    Seq<char>,
> {
    match data {
        Ok(data) => Ok(bundle_view(data@)),
        Err(error) => Err(error@),
    }
}

/// The model of the outcome of writing one member of a bundle.
pub open spec fn member_written_view(data: Result<Option<StoreValue>, StorageError>) -> Result<
    Option<StoreValueView>,
    Seq<char>,
> {
    match data {
        Ok(value) => Ok(optional_view(value)),
        Err(error) => Err(error@),
    }
}

/// The names of a list of components.
pub open spec fn name_views(names: Seq<&'static str>) -> Seq<Seq<char>> {
    Seq::new(names.len(), |i: int| names[i]@)
}

/// The data of a bundle that grows by one member: the first failure stands,
/// else the member's name and value come last.
pub open spec fn with_member(
    data: Result<Seq<(Seq<char>, Option<StoreValueView>)>, Seq<char>>,
    name: Seq<char>,
    member: Result<Option<StoreValueView>, Seq<char>>,
) -> Result<Seq<(Seq<char>, Option<StoreValueView>)>, Seq<char>> {
    match data {
        Err(error) => Err(error),
        Ok(data) => match member {
            Err(error) => Err(error),
            Ok(value) => Ok(data.push((name, value))),
        },
    }
}

/// Adds the outcome of writing one member to the data written so far. On a
/// failure the data stays as it is.
pub fn push_member(
    data: &mut BundleData,
    name: &'static str,
    member: Result<Option<StoreValue>, StorageError>,
) -> (pushed: Result<(), StorageError>)
    ensures
        match pushed {
            Ok(_) => with_member(
                Ok(bundle_view(old(data)@)),
                name@,
                member_written_view(member),
            ) == Ok::<Seq<(Seq<char>, Option<StoreValueView>)>, Seq<char>>(
                bundle_view(final(data)@),
            ),
            Err(error) => with_member(
                Ok(bundle_view(old(data)@)),
                name@,
                member_written_view(member),
            ) == Err::<Seq<(Seq<char>, Option<StoreValueView>)>, Seq<char>>(error@) && final(data)@
                == old(data)@,
        },
{
    match member {
        Ok(value) => {
            data.push((name, value));
            assert(bundle_view(data@) =~= bundle_view(old(data)@).push(
                (name@, optional_view(value)),
            ));
            Ok(())
        },
        Err(error) => Err(error),
    }
}

/// A fixed group of components that is attached and detached as one.
pub trait Bundle: Sized {
    /// The names of the bundle's components, in the order of its members.
    ///
    /// An implementation that leaves this as it is says no more than that
    /// `component_names` always hands out the same names.
    open spec fn names() -> Seq<Seq<char>> {
        arbitrary()
    }

    fn component_names() -> (names: Vec<&'static str>)
        ensures
            name_views(names@) == Self::names(),
    ;

    /// What the bundle hands to the store: one pair for each member, in
    /// order, or the cause for which the first failing member cannot be
    /// written.
    ///
    /// An implementation that leaves this as it is says no more than that
    /// `to_rusqlite` is a function of the bundle.
    open spec fn stored(&self) -> Result<Seq<(Seq<char>, Option<StoreValueView>)>, Seq<char>> {
        arbitrary()
    }

    fn to_rusqlite(&self) -> (data: Result<BundleData, StorageError>)
        ensures
            bundle_written_view(data) == self.stored(),
    ;
}

/// What can stand as a member of a bundle: a component, or one that may be
/// absent.
pub trait BundleComponent {
    /// The name of the member's component.
    const NAME: &'static str;

    /// The value to store, `None` for an absent member, or the cause for
    /// which the member cannot be written.
    ///
    /// An implementation that leaves this as it is says no more than that
    /// `to_rusqlite` is a function of the member.
    open spec fn stored(&self) -> Result<Option<StoreValueView>, Seq<char>> {
        arbitrary()
    }

    fn to_rusqlite(&self) -> (data: Result<Option<StoreValue>, StorageError>)
        ensures
            member_written_view(data) == self.stored(),
    ;
}

impl Bundle for () {
    open spec fn names() -> Seq<Seq<char>> {
        Seq::empty()
    }

    fn component_names() -> (names: Vec<&'static str>) {
        let names = Vec::new();
        assert(name_views(names@) =~= Seq::empty());
        names
    }

    open spec fn stored(&self) -> Result<Seq<(Seq<char>, Option<StoreValueView>)>, Seq<char>> {
        Ok(Seq::empty())
    }

    fn to_rusqlite(&self) -> (data: Result<BundleData, StorageError>) {
        let data: BundleData = Vec::new();
        assert(bundle_view(data@) =~= Seq::empty());
        Ok(data)
    }
}

impl<C: Component> BundleComponent for C {
    const NAME: &'static str = C::NAME;

    open spec fn stored(&self) -> Result<Option<StoreValueView>, Seq<char>> {
        match <C as ComponentWrite<C>>::written(self) {
            Ok(value) => Ok(Some(value)),
            Err(error) => Err(error),
        }
    }

    fn to_rusqlite(&self) -> (data: Result<Option<StoreValue>, StorageError>) {
        match <C as ComponentWrite<C>>::to_rusqlite(self) {
            Ok(value) => Ok(Some(value)),
            Err(error) => Err(error),
        }
    }
}

impl<C: Component> BundleComponent for Option<C> {
    const NAME: &'static str = C::NAME;

    open spec fn stored(&self) -> Result<Option<StoreValueView>, Seq<char>> {
        match self {
            Some(component) => <C as BundleComponent>::stored(component),
            None => Ok(None),
        }
    }

    fn to_rusqlite(&self) -> (data: Result<Option<StoreValue>, StorageError>) {
        match self {
            Some(component) => <C as BundleComponent>::to_rusqlite(component),
            None => Ok(None),
        }
    }
}

impl<C: Component> Bundle for C {
    open spec fn names() -> Seq<Seq<char>> {
        seq![C::NAME@]
    }

    fn component_names() -> (names: Vec<&'static str>) {
        let mut names = Vec::new();
        names.push(C::NAME);
        assert(name_views(names@) =~= seq![C::NAME@]);
        names
    }

    open spec fn stored(&self) -> Result<Seq<(Seq<char>, Option<StoreValueView>)>, Seq<char>> {
        with_member(Ok(Seq::empty()), C::NAME@, <C as BundleComponent>::stored(self))
    }

    fn to_rusqlite(&self) -> (data: Result<BundleData, StorageError>) {
        let mut data: BundleData = Vec::new();
        match <C as BundleComponent>::to_rusqlite(self) {
            Ok(value) => {
                data.push((C::NAME, value));
            },
            Err(error) => {
                return Err(error);
            },
        }
        assert(bundle_view(data@) =~= Seq::empty().push((C::NAME@, optional_view(data@[0].1))));
        Ok(data)
    }
}

impl<C: Component> Bundle for Option<C> {
    open spec fn names() -> Seq<Seq<char>> {
        seq![C::NAME@]
    }

    fn component_names() -> (names: Vec<&'static str>) {
        let mut names = Vec::new();
        names.push(C::NAME);
        assert(name_views(names@) =~= seq![C::NAME@]);
        names
    }

    open spec fn stored(&self) -> Result<Seq<(Seq<char>, Option<StoreValueView>)>, Seq<char>> {
        with_member(Ok(Seq::empty()), C::NAME@, <Option<C> as BundleComponent>::stored(self))
    }

    fn to_rusqlite(&self) -> (data: Result<BundleData, StorageError>) {
        let mut data: BundleData = Vec::new();
        match <Option<C> as BundleComponent>::to_rusqlite(self) {
            Ok(value) => {
                data.push((C::NAME, value));
            },
            Err(error) => {
                return Err(error);
            },
        }
        assert(bundle_view(data@) =~= Seq::empty().push((C::NAME@, optional_view(data@[0].1))));
        Ok(data)
    }
}

} // verus!
