//! Entities and the statements of their lifecycle.
//!
//! An entity is an id and nothing more: it exists as long as a component
//! record refers to it. The functions here say which statements attach,
//! detach, test and destroy; running them is left to the caller that holds
//! the connection.

use crate::component::{bundle_view, Bundle, BundleData};
use crate::query::ir::{FilterExpr, OrderBy};
use crate::query::{Query, QueryFilter};
use crate::table::{new_attach_operations, Operation};
use crate::value::{StoreValue, StoreValueView};
use crate::{EntityId, Error};
use vstd::prelude::*;

verus! {

/// Writes one component record of a known entity. A record that holds the
/// same value already is left untouched, so that its time of modification
/// stays.
pub const ATTACH: &'static str = "insert into components (entity, component, data) \
     values (?1, ?2, ?3) \
     on conflict (entity, component) do update set data = excluded.data \
     where data is not excluded.data";

/// Writes the first component record of a new entity and returns the
/// entity: its id is one more than the greatest id in use, and 100 where none
/// is in use.
pub const ATTACH_NEW: &'static str = "insert into components (entity, component, data) \
     values ((select coalesce(max(entity)+1, 100) from components), ?1, ?2) \
     returning entity";

/// Deletes one component record, if there is one.
pub const DETACH: &'static str = "delete from components where entity = ?1 and component = ?2";

/// Deletes all component records of an entity.
pub const DESTROY: &'static str = "delete from components where entity = ?1";

/// Finds a row if the entity has any component record.
pub const EXISTS: &'static str = "select true from components where entity = ?1";

/// Finds a row if the entity has a record of the component.
pub const HAS: &'static str =
    "select true from components where entity = ?1 and component = ?2";

/// Reads the value of one component record.
pub const COMPONENT: &'static str =
    "select data from components where entity = ?1 and component = ?2";

/// Reads the names of the components of an entity.
pub const COMPONENT_NAMES: &'static str = "select component from components where entity = ?1";

/// Reads the latest time of modification among the records of an entity, and
/// null where the entity has no record.
pub const LAST_MODIFIED: &'static str =
    "select max(last_modified) from components where entity = ?1";

/// A statement with the values of its positional parameters `?1`, `?2`, ...
#[derive(Debug, PartialEq)]
pub struct Statement {
    pub sql: &'static str,
    pub params: Vec<StoreValue>,
}

/// The models of a list of values.
pub open spec fn value_views(values: Seq<StoreValue>) -> Seq<StoreValueView> {
    Seq::new(values.len(), |i: int| values[i]@)
}

impl View for Statement {
    type V = (Seq<char>, Seq<StoreValueView>);

    open spec fn view(&self) -> (Seq<char>, Seq<StoreValueView>) {
        (self.sql@, value_views(self.params@))
    }
}

/// The models of a list of statements.
pub open spec fn statement_views(
    statements: Seq<Statement>,
) -> Seq<(Seq<char>, Seq<StoreValueView>)> {
    Seq::new(statements.len(), |i: int| statements[i]@)
}

/// Marks an entity that has no id yet.
#[derive(Debug, Copy, Clone)]
pub struct WithoutEntityId;

/// Marks an entity by its id.
#[derive(Debug, Copy, Clone)]
pub struct WithEntityId(pub EntityId);

/// An entity of the store.
pub type Entity = GenericEntity<WithEntityId>;

/// An entity that comes into being with its first component.
pub type NewEntity = GenericEntity<WithoutEntityId>;

/// An entity, with or without an id.
#[derive(Debug, Copy, Clone)]
pub struct GenericEntity<S>(pub S);

/// The statement on one entity.
fn entity_statement(sql: &'static str, entity: EntityId) -> (statement: Statement)
    ensures
        statement@ == (sql@, seq![StoreValueView::Integer(entity)]),
{
    let mut params = Vec::new();
    params.push(StoreValue::Integer(entity));
    let statement = Statement { sql, params };
    assert(statement@.1 =~= seq![StoreValueView::Integer(entity)]);
    statement
}

/// The statement on one component of one entity.
fn component_statement(sql: &'static str, entity: EntityId, component: &str) -> (statement:
    Statement)
    ensures
        statement@ == (
            sql@,
            seq![StoreValueView::Integer(entity), StoreValueView::Text(component@)],
        ),
{
    let mut params = Vec::new();
    params.push(StoreValue::Integer(entity));
    params.push(StoreValue::Text(component.to_owned()));
    let statement = Statement { sql, params };
    assert(statement@.1 =~= seq![
        StoreValueView::Integer(entity),
        StoreValueView::Text(component@),
    ]);
    statement
}

/// The statement that does an operation.
pub open spec fn statement_of(operation: Operation) -> (Seq<char>, Seq<StoreValueView>) {
    match operation {
        Operation::Attach { entity, component, data } => (
            ATTACH@,
            seq![StoreValueView::Integer(entity), StoreValueView::Text(component), data],
        ),
        Operation::AttachNew { component, data } => (
            ATTACH_NEW@,
            seq![StoreValueView::Text(component), data],
        ),
        Operation::Detach { entity, component } => (
            DETACH@,
            seq![StoreValueView::Integer(entity), StoreValueView::Text(component)],
        ),
        Operation::Destroy { entity } => (DESTROY@, seq![StoreValueView::Integer(entity)]),
    }
}

/// The statements that do a sequence of operations, one for each.
pub open spec fn statements_of(
    operations: Seq<Operation>,
) -> Seq<(Seq<char>, Seq<StoreValueView>)> {
    Seq::new(operations.len(), |i: int| statement_of(operations[i]))
}

/// What attaching a bundle does to the entity `entity`: one write for each
/// member that is present, in the order of the members.
pub open spec fn attach_operations(
    entity: EntityId,
    data: Seq<(Seq<char>, Option<StoreValueView>)>,
) -> Seq<Operation>
    decreases data.len(),
{
    if data.len() == 0 {
        Seq::empty()
    } else {
        match data.last().1 {
            Some(value) => attach_operations(entity, data.drop_last()).push(
                Operation::Attach { entity, component: data.last().0, data: value },
            ),
            None => attach_operations(entity, data.drop_last()),
        }
    }
}

/// What one write to an entity in the making does: it makes the entity where
/// none is known yet, and attaches to the known one else.
pub open spec fn new_attach_operation(
    entity: Option<EntityId>,
    component: Seq<char>,
    data: StoreValueView,
) -> Operation {
    match entity {
        Some(entity) => Operation::Attach { entity, component, data },
        None => Operation::AttachNew { component, data },
    }
}

/// The steps of attaching a bundle to a new entity do what the attach does
/// as a whole: where `entity` is the id that the first statement returns, the
/// statements of the steps, in the order of the members, are those of
/// `new_attach_operations`.
pub proof fn lemma_next_attach_steps(
    entity: EntityId,
    data: Seq<(Seq<char>, Option<StoreValueView>)>,
)
    ensures
        data.len() > 0 && data.last().1 is Some ==> new_attach_operations(entity, data)
            == new_attach_operations(entity, data.drop_last()).push(
            new_attach_operation(
                if new_attach_operations(entity, data.drop_last()).len() == 0 {
                    None
                } else {
                    Some(entity)
                },
                data.last().0,
                data.last().1->0,
            ),
        ),
        data.len() > 0 && data.last().1 is None ==> new_attach_operations(entity, data)
            == new_attach_operations(entity, data.drop_last()),
{
    if data.len() > 0 && data.last().1 is Some {
        let before = new_attach_operations(entity, data.drop_last());
        if before.len() == 0 {
            assert(new_attach_operations(entity, data) =~= before.push(
                Operation::AttachNew { component: data.last().0, data: data.last().1->0 },
            ));
        }
    }
}

/// Whether every test has found a row.
pub open spec fn all_found(found: Seq<bool>) -> bool {
    forall|i: int| 0 <= i < found.len() ==> found[i]
}

/// What detaching the named components does to the entity `entity`: one
/// deletion for each name.
pub open spec fn detach_operations(entity: EntityId, names: Seq<Seq<char>>) -> Seq<Operation> {
    Seq::new(names.len(), |i: int| Operation::Detach { entity, component: names[i] })
}

/// The statements that test, name by name, whether the entity `entity` has a
/// record of the component.
pub open spec fn has_plan(entity: EntityId, names: Seq<Seq<char>>) -> Seq<
    (Seq<char>, Seq<StoreValueView>),
> {
    Seq::new(
        names.len(),
        |i: int| (HAS@, seq![StoreValueView::Integer(entity), StoreValueView::Text(names[i])]),
    )
}

impl GenericEntity<WithoutEntityId> {
    /// An entity that has no id yet.
    pub fn without_id() -> (entity: NewEntity)
        ensures
            entity.0 == WithoutEntityId,
    {
        GenericEntity(WithoutEntityId)
    }

    /// The statement that writes one component of an entity in the making.
    /// `entity` is the id that the first statement of the same attach has
    /// returned, and `None` for the first. With `None` the store makes a new
    /// entity and returns its id; with an id the record is written as for
    /// any known entity, so that a record that holds the value already is
    /// left untouched.
    pub fn attach_statement(
        entity: Option<EntityId>,
        component: &str,
        data: StoreValue,
    ) -> (statement: Statement)
        ensures
            statement@ == statement_of(new_attach_operation(entity, component@, data@)),
    {
        let mut params = Vec::new();
        match entity {
            Some(id) => {
                params.push(StoreValue::Integer(id));
                params.push(StoreValue::Text(component.to_owned()));
                params.push(data);
                let statement = Statement { sql: ATTACH, params };
                assert(statement@.1 =~= seq![
                    StoreValueView::Integer(id),
                    StoreValueView::Text(component@),
                    data@,
                ]);
                statement
            },
            None => {
                params.push(StoreValue::Text(component.to_owned()));
                params.push(data);
                let statement = Statement { sql: ATTACH_NEW, params };
                assert(statement@.1 =~= seq![StoreValueView::Text(component@), data@]);
                statement
            },
        }
    }

    /// The next step of attaching a bundle to an entity in the making, for
    /// the member of the name `component`: no statement for a member that is
    /// absent, else the statement that writes the member. `entity` is the id
    /// that the first statement of the attach has returned, and `None` as
    /// long as no statement was run; the caller runs the statements in the
    /// order of the members and hands the returned id to every later step.
    pub fn next_attach(
        entity: Option<EntityId>,
        component: &str,
        data: Option<StoreValue>,
    ) -> (statement: Option<Statement>)
        ensures
            match data {
                None => statement is None,
                Some(data) => statement matches Some(statement) && statement@ == statement_of(
                    new_attach_operation(entity, component@, data@),
                ),
            },
    {
        match data {
            None => None,
            Some(data) => Some(Self::attach_statement(entity, component, data)),
        }
    }

    /// Detaching from an entity that has no record yet changes nothing.
    pub fn detach<B: Bundle>(&mut self) -> (entity: &mut Self)
        ensures
            *final(entity) == *final(self),
            *entity == *old(self),
    {
        self
    }

    /// An entity that has no record yet has no components.
    pub fn component_names(&self) -> (names: Vec<String>)
        ensures
            names@.len() == 0,
    {
        Vec::new()
    }
}

impl GenericEntity<WithEntityId> {
    /// The entity with the id `eid`.
    pub fn with_id(eid: EntityId) -> (entity: Entity)
        ensures
            entity.id() == eid,
    {
        GenericEntity(WithEntityId(eid))
    }

    /// The id of the entity.
    pub open spec fn spec_id(&self) -> EntityId {
        (self.0).0
    }

    /// The id of the entity.
    #[verifier::when_used_as_spec(spec_id)]
    pub fn id(&self) -> (id: EntityId)
        ensures
            id == self.spec_id(),
    {
        (self.0).0
    }

    /// The statement that finds a row if and only if the entity exists.
    pub fn exists_statement(&self) -> (statement: Statement)
        ensures
            statement@ == (EXISTS@, seq![StoreValueView::Integer(self.id())]),
    {
        entity_statement(EXISTS, self.id())
    }

    /// The statement that reads the names of the entity's components.
    pub fn component_names_statement(&self) -> (statement: Statement)
        ensures
            statement@ == (COMPONENT_NAMES@, seq![StoreValueView::Integer(self.id())]),
    {
        entity_statement(COMPONENT_NAMES, self.id())
    }

    /// The statement that reads when the entity was last modified: the latest
    /// time of modification among its records, null where it has none.
    pub fn last_modified_statement(&self) -> (statement: Statement)
        ensures
            statement@ == (LAST_MODIFIED@, seq![StoreValueView::Integer(self.id())]),
    {
        entity_statement(LAST_MODIFIED, self.id())
    }

    /// The statement that destroys the entity: it deletes all its records, and
    /// changes nothing where the entity does not exist.
    pub fn destroy_statement(&self) -> (statement: Statement)
        ensures
            statement@ == statement_of(Operation::Destroy { entity: self.id() }),
    {
        entity_statement(DESTROY, self.id())
    }

    /// The statement that reads the value of the component `name`.
    pub fn component_statement(&self, name: &str) -> (statement: Statement)
        ensures
            statement@ == (
                COMPONENT@,
                seq![StoreValueView::Integer(self.id()), StoreValueView::Text(name@)],
            ),
    {
        component_statement(COMPONENT, self.id(), name)
    }

    /// The statements that test whether the entity has all components of the
    /// bundle `B`: one test for each name, in order. The entity has them all
    /// if and only if every test finds a row, so the caller may stop at the
    /// first test that finds none.
    pub fn has_statements<B: Bundle>(&self) -> (statements: Vec<Statement>)
        ensures
            statement_views(statements@) == has_plan(self.id(), B::names()),
    {
        let names = B::component_names();
        let mut statements: Vec<Statement> = Vec::new();
        let mut i: usize = 0;
        while i < names.len()
            invariant
                0 <= i <= names.len(),
                statements@.len() == i,
                forall|j: int|
                    0 <= j < i ==> (#[trigger] statements@[j])@ == (
                        HAS@,
                        seq![StoreValueView::Integer(self.id()), StoreValueView::Text(names@[j]@)],
                    ),
            decreases names.len() - i,
        {
            statements.push(component_statement(HAS, self.id(), names[i]));
            i += 1;
        }
        assert(statement_views(statements@) =~= has_plan(self.id(), B::names()));
        statements
    }

    /// Whether the entity has all components that were tested for, given what
    /// the tests of `has_statements` have found, in their order: it has them
    /// all if and only if every test has found a row. Without a test the
    /// answer is yes. The list may end with the first test that found none.
    pub fn has_all(found: &Vec<bool>) -> (all: bool)
        ensures
            all == all_found(found@),
    {
        let mut i: usize = 0;
        while i < found.len()
            invariant
                0 <= i <= found.len(),
                forall|j: int| 0 <= j < i ==> found@[j],
            decreases found.len() - i,
        {
            if !found[i] {
                return false;
            }
            i += 1;
        }
        true
    }

    /// The statements that detach the bundle `B`: one deletion for each of
    /// its names, in order. Deleting a record that is not there changes
    /// nothing.
    pub fn detach_statements<B: Bundle>(&self) -> (statements: Vec<Statement>)
        ensures
            statement_views(statements@) == statements_of(
                detach_operations(self.id(), B::names()),
            ),
    {
        let names = B::component_names();
        let mut statements: Vec<Statement> = Vec::new();
        let mut i: usize = 0;
        while i < names.len()
            invariant
                0 <= i <= names.len(),
                statements@.len() == i,
                forall|j: int|
                    0 <= j < i ==> (#[trigger] statements@[j])@ == (
                        DETACH@,
                        seq![StoreValueView::Integer(self.id()), StoreValueView::Text(names@[j]@)],
                    ),
            decreases names.len() - i,
        {
            statements.push(component_statement(DETACH, self.id(), names[i]));
            i += 1;
        }
        assert(statement_views(statements@) =~= statements_of(
            detach_operations(self.id(), B::names()),
        ));
        statements
    }

    /// The statements that write the members of `data` for the entity, one
    /// for each member that is present.
    pub fn attach_data(&self, data: BundleData) -> (statements: Vec<Statement>)
        ensures
            statement_views(statements@) == statements_of(
                attach_operations(self.id(), bundle_view(data@)),
            ),
    {
        let ghost all = data@;
        let mut statements: Vec<Statement> = Vec::new();
        for member in iter: data
            invariant
                iter.seq() == all,
                statement_views(statements@) == statements_of(
                    attach_operations(self.id(), bundle_view(all.take(iter.index() as int))),
                ),
        {
            let ghost done = all.take(iter.index() as int);
            let ghost next = all.take(iter.index() + 1);
            let ghost before = statements@;
            proof {
                assert(next.drop_last() =~= done);
                assert(bundle_view(next).drop_last() =~= bundle_view(done));
                assert(next.last() == member);
            }
            let (component, value) = member;
            match value {
                Some(value) => {
                    let mut params = Vec::new();
                    params.push(StoreValue::Integer(self.id()));
                    params.push(StoreValue::Text(component.to_owned()));
                    params.push(value);
                    let statement = Statement { sql: ATTACH, params };
                    assert(statement@.1 =~= seq![
                        StoreValueView::Integer(self.id()),
                        StoreValueView::Text(component@),
                        value@,
                    ]);
                    statements.push(statement);
                    assert(statement_views(statements@) =~= statement_views(before).push(
                        statement@,
                    ));
                    assert(statements_of(attach_operations(self.id(), bundle_view(next)))
                        =~= statements_of(attach_operations(self.id(), bundle_view(done))).push(
                        statement@,
                    ));
                },
                None => {},
            }
        }
        proof {
            assert(all.take(all.len() as int) =~= all);
        }
        statements
    }

    /// The statements that attach `bundle` to the entity: one write for each
    /// member that is present. Fails, with no statement, if a member cannot
    /// be written.
    pub fn attach_statements<B: Bundle>(&self, bundle: &B) -> (statements: Result<
        Vec<Statement>,
        Error,
    >)
        ensures
            match statements {
                Ok(statements) => bundle.stored() matches Ok(data) && statement_views(statements@)
                    == statements_of(attach_operations(self.id(), data)),
                Err(error) => error matches Error::ComponentStorage(cause) && bundle.stored()
                    == Err::<Seq<(Seq<char>, Option<StoreValueView>)>, Seq<char>>(cause@),
            },
    {
        match bundle.to_rusqlite() {
            Ok(data) => Ok(self.attach_data(data)),
            Err(cause) => Err(Error::ComponentStorage(cause)),
        }
    }

    /// The query that finds the entity if and only if it matches the
    /// predicate `F`: the conjunction of `F` and of the entity's own id.
    pub fn matches_query<F: QueryFilter>(&self) -> (query: crate::query::ir::Query)
        ensures
            query.filter@ == FilterExpr::And(
                seq![FilterExpr::NoFilter, F::filter(), FilterExpr::EntityId(self.id())],
            ),
            query.order_by == OrderBy::Asc,
    {
        let query: Query<(), F, EntityId> = Query::with_filter(self.id());
        query.as_sql_query()
    }
}

} // verus!
