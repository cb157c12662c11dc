//! Components whose type is not known where they are read.

use crate::component::{
    read_view, Component, ComponentRead, ComponentWrite, StorageError, StorageStrategy,
};
use crate::json::{json_null, json_shape_of, parse_json, parsed_json};
use crate::value::{StoreValue, StoreValueView};
use vstd::prelude::*;

verus! {

/// A stored component: its name, and its value as the store holds it.
pub struct DynComponent<'a>(pub &'a str, pub StoreValue);

impl<'a> DynComponent<'a> {
    /// The name of the component.
    pub fn name(&'a self) -> (name: &'a str)
        ensures
            name@ == self.0@,
    {
        self.0
    }

    /// The outcome of reading `value` as a component of type `C`: a value of
    /// a kind that the strategy of `C` does not expect is not read at all.
    pub open spec fn typed<C: Component>(value: StoreValueView) -> Result<C, Seq<char>> {
        if C::Storage::accepts(value) {
            <C as ComponentRead<C>>::read(value)
        } else {
            Err(StorageError::unexpected(value))
        }
    }

    /// Reads the value as a component of type `C`.
    pub fn into_typed<C: Component>(self) -> (component: Result<C, StorageError>)
        ensures
            read_view(component) == Self::typed::<C>(self.1@),
    {
        self.as_typed()
    }

    /// Reads the value as a component of type `C`.
    pub fn as_typed<C: Component>(&self) -> (component: Result<C, StorageError>)
        ensures
            read_view(component) == Self::typed::<C>(self.1@),
    {
        if C::Storage::expects(&self.1) {
            <C as ComponentRead<C>>::from_rusqlite(&self.1)
        } else {
            Err(StorageError::unexpected_type(&self.1))
        }
    }

    /// The component `c` as it is stored: under the name of `C`, with the
    /// value that `c` is written as.
    pub fn from_typed<C: Component + 'a>(c: &'a C) -> (stored: Result<Self, StorageError>)
        ensures
            match stored {
                Ok(stored) => stored.0@ == C::NAME@ && <C as ComponentWrite<C>>::written(c) == Ok::<
                    StoreValueView,
                    Seq<char>,
                >(stored.1@),
                Err(error) => <C as ComponentWrite<C>>::written(c) == Err::<
                    StoreValueView,
                    Seq<char>,
                >(error@),
            },
    {
        match <C as ComponentWrite<C>>::to_rusqlite(c) {
            Ok(value) => Ok(DynComponent(C::component_name(), value)),
            Err(error) => Err(error),
        }
    }

    /// The value as JSON: what its text parses to, JSON null for null, and
    /// nothing for a value of another kind or for text that is not JSON.
    pub fn as_json(&self) -> (json: Option<serde_json::Value>)
        ensures
            match self.1@ {
                StoreValueView::Text(text) => json == parsed_json(text),
                StoreValueView::Null => json matches Some(null) && json_shape_of(null) is Null,
                _ => json is None,
            },
    {
        match &self.1 {
            StoreValue::Text(text) => match parse_json(text.as_str()) {
                Ok(json) => Some(json),
                Err(_) => None,
            },
            StoreValue::Null => Some(json_null()),
            _ => None,
        }
    }
}

} // verus!
