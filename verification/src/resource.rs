//! Resources: components of which the store holds one value, not one for
//! each entity.

use crate::component::{Component, ComponentWrite};
use crate::entity::Statement;
use crate::value::{StoreValue, StoreValueView};
use crate::Error;
use vstd::prelude::*;

verus! {

/// Reads the value of one resource.
pub const RESOURCE: &'static str = "select data from resources where name = ?1";

/// Writes one resource, in the place of the value that it had.
pub const ATTACH_RESOURCE: &'static str =
    "insert or replace into resources (name, data) values (?1, ?2)";

/// Deletes one resource, if it is there.
pub const DETACH_RESOURCE: &'static str = "delete from resources where name = ?1";

/// A component that is stored once, under its component's name.
pub trait Resource: Component {
    fn resource_name() -> (name: &'static str)
        ensures
            name@ == Self::NAME@,
    {
        <Self as Component>::component_name()
    }
}

/// The statement that reads the resource `R`.
pub fn resource_statement<R: Resource>() -> (statement: Statement)
    ensures
        statement@ == (RESOURCE@, seq![StoreValueView::Text(R::NAME@)]),
{
    let mut params = Vec::new();
    params.push(StoreValue::Text(R::resource_name().to_owned()));
    let statement = Statement { sql: RESOURCE, params };
    assert(statement@.1 =~= seq![StoreValueView::Text(R::NAME@)]);
    statement
}

/// The statement that stores `resource`; fails if the resource cannot be
/// written.
pub fn attach_resource_statement<R: Resource>(resource: &R) -> (statement: Result<
    Statement,
    Error,
>)
    ensures
        match statement {
            Ok(statement) => <R as ComponentWrite<R>>::written(resource) matches Ok(data)
                && statement@ == (ATTACH_RESOURCE@, seq![StoreValueView::Text(R::NAME@), data]),
            Err(error) => error matches Error::ComponentStorage(cause) && <R as ComponentWrite<
                R,
            >>::written(resource) == Err::<StoreValueView, Seq<char>>(cause@),
        },
{
    match <R as ComponentWrite<R>>::to_rusqlite(resource) {
        Ok(data) => {
            let mut params = Vec::new();
            params.push(StoreValue::Text(R::component_name().to_owned()));
            params.push(data);
            let statement = Statement { sql: ATTACH_RESOURCE, params };
            assert(statement@.1 =~= seq![StoreValueView::Text(R::NAME@), data@]);
            Ok(statement)
        },
        Err(cause) => Err(Error::ComponentStorage(cause)),
    }
}

/// The statement that deletes the resource `R`.
pub fn detach_resource_statement<R: Resource>() -> (statement: Statement)
    ensures
        statement@ == (DETACH_RESOURCE@, seq![StoreValueView::Text(R::NAME@)]),
{
    let mut params = Vec::new();
    params.push(StoreValue::Text(R::component_name().to_owned()));
    let statement = Statement { sql: DETACH_RESOURCE, params };
    assert(statement@.1 =~= seq![StoreValueView::Text(R::NAME@)]);
    statement
}

} // verus!
