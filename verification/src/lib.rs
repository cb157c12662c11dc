//! An entity-component store over a relational engine: typed records are
//! attached to integer-keyed entities in one wide table, and a typed query
//! algebra is compiled to a single parameterized SQL statement.
//!
//! The library computes: it encodes components, plans the statements of an
//! entity's lifecycle and compiles queries. It never touches a connection.

pub mod changes;
pub mod component;
pub mod dyn_component;
pub mod entity;
pub mod json;
pub mod query;
pub mod resource;
pub mod schedule;
pub mod schema;
pub mod sqlite_ext;
pub mod table;
pub mod text;
pub mod value;

pub use component::{Bundle, Component, ComponentRead, ComponentWrite};
pub use dyn_component::DynComponent;
pub use entity::{Entity, NewEntity};
pub use resource::Resource;
pub use value::{StoreValue, StoreValueView};

use vstd::prelude::*;

verus! {

/// Identifier of an entity.
pub type EntityId = i64;

/// What can go wrong in the store.
#[derive(Debug, PartialEq)]
pub enum Error {
    /// The relational engine failed; the text is its message.
    Database(String),
    /// A component could not be written or read.
    ComponentStorage(component::StorageError),
}

impl Error {
    /// The error in words.
    pub fn to_string(&self) -> (text: String)
        ensures
            text@ == match self {
                Error::Database(message) => "Database Error: "@ + message@,
                Error::ComponentStorage(cause) => "Error reading/writing Component: "@ + cause@,
            },
    {
        match self {
            Error::Database(message) => {
                let mut text = String::from_str("Database Error: ");
                text.append(message.as_str());
                text
            },
            Error::ComponentStorage(cause) => cause.to_string(),
        }
    }
}

} // verus!
