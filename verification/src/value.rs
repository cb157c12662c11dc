//! The value domain of the store: what a component record's `data` column can hold.

use vstd::prelude::*;

verus! {

/// Mathematical model of a stored value.
pub ghost enum StoreValueView {
    /// Absent.
    Null,
    /// A 64-bit signed integer.
    Integer(i64),
    /// A 64-bit real, given by its IEEE-754 bit pattern.
    Real(u64),
    /// UTF-8 text.
    Text(Seq<char>),
    /// An opaque byte sequence.
    Blob(Seq<u8>),
}

/// A value as the store holds it. A real is carried as the bit pattern of the
/// 64-bit float it stands for, so that the library never computes on floats.
#[derive(Debug, PartialEq)]
pub enum StoreValue {
    Null,
    Integer(i64),
    Real(u64),
    Text(String),
    Blob(Vec<u8>),
}

impl View for StoreValue {
    type V = StoreValueView;

    open spec fn view(&self) -> StoreValueView {
        match self {
            StoreValue::Null => StoreValueView::Null,
            StoreValue::Integer(i) => StoreValueView::Integer(*i),
            StoreValue::Real(bits) => StoreValueView::Real(*bits),
            StoreValue::Text(text) => StoreValueView::Text(text@),
            StoreValue::Blob(bytes) => StoreValueView::Blob(bytes@),
        }
    }
}

impl Clone for StoreValue {
    fn clone(&self) -> (copy: Self)
        ensures
            copy@ == self@,
    {
        match self {
            StoreValue::Null => StoreValue::Null,
            StoreValue::Integer(i) => StoreValue::Integer(*i),
            StoreValue::Real(bits) => StoreValue::Real(*bits),
            StoreValue::Text(text) => StoreValue::Text(text.clone()),
            StoreValue::Blob(bytes) => StoreValue::Blob(bytes.clone()),
        }
    }
}

impl StoreValue {
    /// Whether the value is absent.
    pub fn is_null(&self) -> (null: bool)
        ensures
            null == (self@ is Null),
    {
        match self {
            StoreValue::Null => true,
            _ => false,
        }
    }

    /// Name of the value's kind, as used in error messages.
    pub open spec fn kind_name(kind: StoreValueView) -> Seq<char> {
        match kind {
            StoreValueView::Null => "Null"@,
            StoreValueView::Integer(_) => "Integer"@,
            StoreValueView::Real(_) => "Real"@,
            StoreValueView::Text(_) => "Text"@,
            StoreValueView::Blob(_) => "Blob"@,
        }
    }

    /// Name of the value's kind.
    pub fn kind(&self) -> (name: &'static str)
        ensures
            name@ == Self::kind_name(self@),
    {
        match self {
            StoreValue::Null => "Null",
            StoreValue::Integer(_) => "Integer",
            StoreValue::Real(_) => "Real",
            StoreValue::Text(_) => "Text",
            StoreValue::Blob(_) => "Blob",
        }
    }
}

} // verus!
