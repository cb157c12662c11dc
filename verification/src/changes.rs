//! The change log: an append-only record of what was done to entities.
//!
//! The log is kept by the store itself, by triggers on the table
//! `components`, and only while change tracking is on. A write that changes
//! nothing is not logged.

use crate::component::StorageError;
use crate::entity::Statement;
use crate::table::{
    attached, describes_write, detached, exists_in, has_record, has_value, is_at,
    lemma_detach_removes, unique, Record,
};
use crate::value::{StoreValue, StoreValueView};
use crate::EntityId;
use vstd::prelude::*;

verus! {

/// Turns change tracking on: from then on every record that is written or
/// deleted is logged, together with the coming and going of entities.
pub const CHANGE_TRACKING: &'static str = "
create trigger if not exists changes_on_insert
after insert on components
for each row
begin
    insert into changes (entity, component, change)
    select new.entity, null, 'create'
    where (select count(*) from components where entity = new.entity) = 1;
    insert into changes (entity, component, change)
    values (new.entity, new.component, 'attach');
end;

create trigger if not exists changes_on_update
after update of data on components
for each row
begin
    insert into changes (entity, component, change)
    values (new.entity, new.component, 'attach');
end;

create trigger if not exists changes_on_delete
after delete on components
for each row
begin
    insert into changes (entity, component, change)
    values (old.entity, old.component, 'detach');
    insert into changes (entity, component, change)
    select old.entity, null, 'destroy'
    where not exists (select 1 from components where entity = old.entity);
end;
";

/// Turns change tracking off. What was logged stays.
pub const NO_CHANGE_TRACKING: &'static str = "
drop trigger if exists changes_on_insert;
drop trigger if exists changes_on_update;
drop trigger if exists changes_on_delete;
";

/// Reads the log in the order in which it was written.
pub const CHANGES: &'static str =
    "select sequence, entity, component, change from changes order by sequence";

/// Deletes the log up to a sequence number, that number included.
pub const TRUNCATE_CHANGES: &'static str = "delete from changes where sequence <= ?1";

/// What was done.
#[derive(Debug, Clone, Copy, PartialEq, Eq, Structural)]
pub enum Change {
    /// An entity came into being.
    Create,
    /// A component was attached, or its value changed.
    Attach,
    /// A component was detached.
    Detach,
    /// An entity lost its last component.
    Destroy,
}

/// One entry of the log.
#[derive(Debug, PartialEq)]
pub struct ChangeRecord {
    /// The place of the entry in the log; later entries have greater numbers.
    pub sequence: i64,
    pub entity: EntityId,
    /// The component that was attached or detached; none where the change is
    /// to the entity as a whole.
    pub component: Option<String>,
    pub change: Change,
}

impl Change {
    /// The word by which the log names the change.
    pub open spec fn word(self) -> Seq<char> {
        match self {
            Change::Create => "create"@,
            Change::Attach => "attach"@,
            Change::Detach => "detach"@,
            Change::Destroy => "destroy"@,
        }
    }

    /// The change that a word of the log names.
    pub open spec fn named_by(word: Seq<char>) -> Option<Change> {
        if word == "create"@ {
            Some(Change::Create)
        } else if word == "attach"@ {
            Some(Change::Attach)
        } else if word == "detach"@ {
            Some(Change::Detach)
        } else if word == "destroy"@ {
            Some(Change::Destroy)
        } else {
            None
        }
    }

    /// The word by which the log names the change.
    pub fn as_str(self) -> (word: &'static str)
        ensures
            word@ == self.word(),
    {
        match self {
            Change::Create => "create",
            Change::Attach => "attach",
            Change::Detach => "detach",
            Change::Destroy => "destroy",
        }
    }

    /// The change that `word` names, if it names one.
    pub fn parse(word: &str) -> (change: Option<Change>)
        ensures
            change == Self::named_by(word@),
    {
        let word = word.to_owned();
        if word == String::from_str("create") {
            Some(Change::Create)
        } else if word == String::from_str("attach") {
            Some(Change::Attach)
        } else if word == String::from_str("detach") {
            Some(Change::Detach)
        } else if word == String::from_str("destroy") {
            Some(Change::Destroy)
        } else {
            None
        }
    }
}

/// Every change is read back from its word.
pub proof fn lemma_change_round_trip(change: Change)
    ensures
        Change::named_by(change.word()) == Some(change),
{
    reveal_strlit("create");
    reveal_strlit("attach");
    reveal_strlit("detach");
    reveal_strlit("destroy");
    assert("create"@[0] != "attach"@[0]);
    assert("create"@[0] != "detach"@[0]);
    assert("attach"@[0] != "detach"@[0]);
    assert("create"@.len() != "destroy"@.len());
    assert("attach"@.len() != "destroy"@.len());
    assert("detach"@.len() != "destroy"@.len());
}

/// The model of an entry without its place in the log.
pub ghost struct Logged {
    pub entity: EntityId,
    pub component: Option<Seq<char>>,
    pub change: Change,
}

/// Whether the entity has a record of another component than `component`.
pub open spec fn has_other_record(
    table: Seq<Record>,
    entity: EntityId,
    component: Seq<char>,
) -> bool {
    exists|index: int|
        0 <= index < table.len() && #[trigger] table[index].entity == entity
            && table[index].component != component
}

/// What the log gains when `data` is attached while change tracking is on.
///
/// A record that comes into being is logged as attached, after the coming of
/// its entity if it is the entity's first. A record whose value changes is
/// logged as attached. A record that is written with the value that it holds
/// already is not logged.
///
/// Like the table after the write, this is of the writes that
/// `describes_write` admits: of a number written onto a number of another
/// kind, which the engine compares by their amounts, it does not speak.
pub open spec fn logged_attach(
    table: Seq<Record>,
    entity: EntityId,
    component: Seq<char>,
    data: StoreValueView,
) -> Seq<Logged>
    recommends
        describes_write(table, entity, component, data),
{
    let attach = Logged { entity, component: Some(component), change: Change::Attach };
    if !has_record(table, entity, component) {
        if exists_in(table, entity) {
            seq![attach]
        } else {
            seq![Logged { entity, component: None, change: Change::Create }, attach]
        }
    } else if has_value(table, entity, component, data) {
        Seq::empty()
    } else {
        seq![attach]
    }
}

/// What the log gains when a component is detached while change tracking is
/// on: a record that goes is logged as detached, followed by the going of its
/// entity if it was the entity's last; where there is no record, nothing is
/// logged.
pub open spec fn logged_detach(table: Seq<Record>, entity: EntityId, component: Seq<char>) -> Seq<
    Logged,
> {
    let detach = Logged { entity, component: Some(component), change: Change::Detach };
    if !has_record(table, entity, component) {
        Seq::empty()
    } else if has_other_record(table, entity, component) {
        seq![detach]
    } else {
        seq![detach, Logged { entity, component: None, change: Change::Destroy }]
    }
}

/// An attach that the model describes, or a detach, is logged if and only
/// if it changes the table.
pub proof fn lemma_logged_when_changed(
    table: Seq<Record>,
    entity: EntityId,
    component: Seq<char>,
    data: StoreValueView,
    now: int,
)
    requires
        unique(table),
        describes_write(table, entity, component, data),
    ensures
        logged_attach(table, entity, component, data).len() == 0 <==> attached(
            table,
            entity,
            component,
            data,
            now,
        ) == table,
        logged_detach(table, entity, component).len() == 0 <==> detached(table, entity, component)
            == table,
{
    if has_record(table, entity, component) {
        let index = choose|index: int| is_at(table, index, entity, component);
        if table[index].data != data {
            let after = attached(table, entity, component, data, now);
            assert(after[index].data == data);
            assert forall|other: int|
                is_at(table, other, entity, component) implies table[other].data != data by {
                if other < index {
                    assert(table[other].entity == table[index].entity);
                } else if index < other {
                    assert(table[index].entity == table[other].entity);
                }
            }
        }
        lemma_detach_removes(table, entity, component);
    } else {
        let after = attached(table, entity, component, data, now);
        assert(after.len() == table.len() + 1);
        lemma_detach_removes(table, entity, component);
    }
}

/// The statement that reads the log.
pub fn changes_statement() -> (statement: Statement)
    ensures
        statement@ == (CHANGES@, Seq::<StoreValueView>::empty()),
{
    let statement = Statement { sql: CHANGES, params: Vec::new() };
    assert(statement@.1 =~= Seq::<StoreValueView>::empty());
    statement
}

/// The statement that deletes the entries up to `watermark`, that one
/// included.
pub fn truncate_statement(watermark: i64) -> (statement: Statement)
    ensures
        statement@ == (TRUNCATE_CHANGES@, seq![StoreValueView::Integer(watermark)]),
{
    let mut params = Vec::new();
    params.push(StoreValue::Integer(watermark));
    let statement = Statement { sql: TRUNCATE_CHANGES, params };
    assert(statement@.1 =~= seq![StoreValueView::Integer(watermark)]);
    statement
}

impl ChangeRecord {
    /// The entry that a row of the log holds, if the row is one: an integer,
    /// an integer, a text or null, and the word of a change.
    pub open spec fn of_row(
        sequence: StoreValueView,
        entity: StoreValueView,
        component: StoreValueView,
        change: StoreValueView,
    ) -> Option<(i64, EntityId, Option<Seq<char>>, Change)> {
        match (sequence, entity, change) {
            (
                StoreValueView::Integer(sequence),
                StoreValueView::Integer(entity),
                StoreValueView::Text(word),
            ) => match (component, Change::named_by(word)) {
                (StoreValueView::Text(name), Some(change)) => Some(
                    (sequence, entity, Some(name), change),
                ),
                (StoreValueView::Null, Some(change)) => Some((sequence, entity, None, change)),
                _ => None,
            },
            _ => None,
        }
    }

    /// The model of the entry.
    pub open spec fn model(&self) -> (i64, EntityId, Option<Seq<char>>, Change) {
        (
            self.sequence,
            self.entity,
            match self.component {
                Some(name) => Some(name@),
                None => None,
            },
            self.change,
        )
    }

    /// Reads an entry from the values of a row of the log; fails on a row
    /// that is none.
    pub fn from_row(
        sequence: &StoreValue,
        entity: &StoreValue,
        component: &StoreValue,
        change: &StoreValue,
    ) -> (record: Result<ChangeRecord, StorageError>)
        ensures
            match record {
                Ok(record) => Self::of_row(sequence@, entity@, component@, change@) == Some(
                    record.model(),
                ),
                Err(_) => Self::of_row(sequence@, entity@, component@, change@) is None,
            },
    {
        let sequence = match sequence {
            StoreValue::Integer(sequence) => *sequence,
            other => {
                return Err(StorageError::unexpected_type(other));
            },
        };
        let entity = match entity {
            StoreValue::Integer(entity) => *entity,
            other => {
                return Err(StorageError::unexpected_type(other));
            },
        };
        let change = match change {
            StoreValue::Text(word) => match Change::parse(word.as_str()) {
                Some(change) => change,
                None => {
                    return Err(StorageError(String::from_str("Unexpected change")));
                },
            },
            other => {
                return Err(StorageError::unexpected_type(other));
            },
        };
        let component = match component {
            StoreValue::Text(name) => Some(name.clone()),
            StoreValue::Null => None,
            other => {
                return Err(StorageError::unexpected_type(other));
            },
        };
        Ok(ChangeRecord { sequence, entity, component, change })
    }
}

} // verus!
