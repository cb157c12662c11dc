//! The table `components` as mathematics: what the statements of an entity's
//! lifecycle do to it, and which entities a filter expression selects.
//!
//! The relational engine does the work; this module says what that work is,
//! and proves what follows from it. Nothing here runs.

use crate::query::ir::{simplified, simplified_members, FilterExpr};
use crate::value::StoreValueView;
use crate::EntityId;
use vstd::prelude::*;

verus! {

/// One record of the table.
pub ghost struct Record {
    pub entity: EntityId,
    pub component: Seq<char>,
    pub data: StoreValueView,
    /// The time at which the record's data was last written.
    pub last_modified: int,
}

/// Whether the record at `index` is the one of `entity` and `component`.
pub open spec fn is_at(
    table: Seq<Record>,
    index: int,
    entity: EntityId,
    component: Seq<char>,
) -> bool {
    &&& 0 <= index < table.len()
    &&& table[index].entity == entity
    &&& table[index].component == component
}

/// Whether the table has a record of `entity` and `component`.
pub open spec fn has_record(table: Seq<Record>, entity: EntityId, component: Seq<char>) -> bool {
    exists|index: int| #[trigger] is_at(table, index, entity, component)
}

/// Whether the entity exists: whether any record refers to it.
pub open spec fn exists_in(table: Seq<Record>, entity: EntityId) -> bool {
    exists|index: int| 0 <= index < table.len() && #[trigger] table[index].entity == entity
}

/// The key of the table: no two records have the same entity and component.
pub open spec fn unique(table: Seq<Record>) -> bool {
    forall|i: int, j: int|
        0 <= i < j < table.len() ==> !(#[trigger] table[i].entity == #[trigger] table[j].entity
            && table[i].component == table[j].component)
}

/// What is done to the table.
pub ghost enum Operation {
    /// Writes the record of `entity` and `component`.
    Attach { entity: EntityId, component: Seq<char>, data: StoreValueView },
    /// Writes the first record of a new entity.
    AttachNew { component: Seq<char>, data: StoreValueView },
    /// Deletes the record of `entity` and `component`.
    Detach { entity: EntityId, component: Seq<char> },
    /// Deletes all records of `entity`.
    Destroy { entity: EntityId },
}

/// Whether the engine compares `data` with the value `stored` as the model
/// does, by the equality of the two values. It does unless both are numbers
/// and one of them is a real: numbers it compares by their amount, so that
/// the integer 1 and the real 1.0 are one value to it, and a write of the
/// one onto the other changes nothing and is not logged.
pub open spec fn compared_as_written(stored: StoreValueView, data: StoreValueView) -> bool {
    !((stored is Integer || stored is Real) && (data is Integer || data is Real) && (stored is Real
        || data is Real))
}

/// Whether the model describes a write of `data` to the record of `entity`
/// and `component`: there is no such record, or its value is compared with
/// `data` as written. That holds of every write of null, of a text and of
/// bytes, which are the values of the three storage strategies.
pub open spec fn describes_write(
    table: Seq<Record>,
    entity: EntityId,
    component: Seq<char>,
    data: StoreValueView,
) -> bool {
    forall|index: int| #[trigger]
        is_at(table, index, entity, component) ==> compared_as_written(table[index].data, data)
}

/// Whether no present member of the bundle is a number: each is null, a
/// text or bytes, which is what the three storage strategies write.
pub open spec fn without_numbers(data: Seq<(Seq<char>, Option<StoreValueView>)>) -> bool {
    forall|j: int|
        0 <= j < data.len() && (#[trigger] data[j]).1 is Some ==> !(data[j].1->0 is Integer)
            && !(data[j].1->0 is Real)
}

/// The table after `data` was attached at the time `now`: a record that holds
/// `data` already stays as it is, one that holds another value takes `data`
/// and the time, and where there is no record a new one comes last.
///
/// The model is of the writes that `describes_write` admits. Of a number
/// written onto a number of another kind it does not speak: there the engine
/// goes by the amounts, which the model does not know.
pub open spec fn attached(
    table: Seq<Record>,
    entity: EntityId,
    component: Seq<char>,
    data: StoreValueView,
    now: int,
) -> Seq<Record>
    recommends
        describes_write(table, entity, component, data),
{
    if has_record(table, entity, component) {
        let index = choose|index: int| is_at(table, index, entity, component);
        if table[index].data == data {
            table
        } else {
            table.update(index, Record { entity, component, data, last_modified: now })
        }
    } else {
        table.push(Record { entity, component, data, last_modified: now })
    }
}

/// The table after `data` was attached, at the time `now`, to a new entity:
/// a record of the entity comes last. The entity's id is one more than the
/// greatest id in use, and 100 where none is in use; nothing is written where
/// the ids have run out.
pub open spec fn attached_new(
    table: Seq<Record>,
    component: Seq<char>,
    data: StoreValueView,
    now: int,
) -> Seq<Record> {
    if fresh_id(table) <= i64::MAX {
        table.push(
            Record { entity: fresh_id(table) as i64, component, data, last_modified: now },
        )
    } else {
        table
    }
}

/// The table without the record of `entity` and `component`.
pub open spec fn detached(table: Seq<Record>, entity: EntityId, component: Seq<char>) -> Seq<
    Record,
> {
    table.filter(|record: Record| !(record.entity == entity && record.component == component))
}

/// The table without the records of `entity`.
pub open spec fn destroyed(table: Seq<Record>, entity: EntityId) -> Seq<Record> {
    table.filter(|record: Record| record.entity != entity)
}

/// The table after one operation, done at the time `now`.
pub open spec fn applied(table: Seq<Record>, operation: Operation, now: int) -> Seq<Record> {
    match operation {
        Operation::Attach { entity, component, data } => attached(
            table,
            entity,
            component,
            data,
            now,
        ),
        Operation::AttachNew { component, data } => attached_new(table, component, data, now),
        Operation::Detach { entity, component } => detached(table, entity, component),
        Operation::Destroy { entity } => destroyed(table, entity),
    }
}

/// The table after a sequence of operations, the `i`-th done at `times[i]`.
pub open spec fn applied_all(
    table: Seq<Record>,
    operations: Seq<Operation>,
    times: Seq<int>,
) -> Seq<
    Record,
>
    decreases operations.len(),
{
    if operations.len() == 0 {
        table
    } else {
        applied(
            applied_all(table, operations.drop_last(), times),
            operations.last(),
            times[operations.len() - 1],
        )
    }
}

/// The id that a new entity gets: one more than the greatest id in use, and
/// 100 where no id is in use.
pub open spec fn fresh_id(table: Seq<Record>) -> int
    decreases table.len(),
{
    if table.len() == 0 {
        100
    } else {
        let before = fresh_id(table.drop_last());
        if table.len() == 1 || table.last().entity + 1 > before {
            table.last().entity + 1
        } else {
            before
        }
    }
}

/// What a filter leaves out of a table keeps the key.
proof fn lemma_filter_keeps_unique(table: Seq<Record>, keep: spec_fn(Record) -> bool)
    requires
        unique(table),
    ensures
        unique(table.filter(keep)),
        forall|record: Record| #[trigger]
            table.filter(keep).contains(record) <==> table.contains(record) && keep(record),
    decreases table.len(),
{
    reveal(Seq::filter);
    let kept = table.filter(keep);
    if table.len() > 0 {
        let front = table.drop_last();
        lemma_filter_keeps_unique(front, keep);
        assert forall|record: Record| #[trigger]
            kept.contains(record) <==> table.contains(record) && keep(record) by {
            if kept.contains(record) {
                let i = choose|i: int| 0 <= i < kept.len() && kept[i] == record;
                if keep(table.last()) && i == kept.len() - 1 {
                    assert(table[table.len() - 1] == record);
                } else {
                    assert(front.filter(keep)[i] == record);
                    assert(front.filter(keep).contains(record));
                    let j = choose|j: int| 0 <= j < front.len() && front[j] == record;
                    assert(table[j] == record);
                }
            }
            if table.contains(record) && keep(record) {
                let j = choose|j: int| 0 <= j < table.len() && table[j] == record;
                if j == table.len() - 1 {
                    assert(kept[kept.len() - 1] == record);
                } else {
                    assert(front[j] == record);
                    assert(front.contains(record));
                    assert(front.filter(keep).contains(record));
                    let i = choose|i: int|
                        0 <= i < front.filter(keep).len() && front.filter(keep)[i] == record;
                    assert(kept[i] == record);
                }
            }
        }
        assert forall|i: int, j: int| 0 <= i < j < kept.len() implies !(#[trigger] kept[i].entity
            == #[trigger] kept[j].entity && kept[i].component == kept[j].component) by {
            if j == kept.len() - 1 && keep(table.last()) {
                assert(front.filter(keep)[i] == kept[i]);
                assert(front.filter(keep).contains(kept[i]));
                assert(front.contains(kept[i]));
                let k = choose|k: int| 0 <= k < front.len() && front[k] == kept[i];
                assert(table[k] == kept[i]);
                assert(table[table.len() - 1] == kept[j]);
            } else {
                assert(front.filter(keep)[i] == kept[i]);
                assert(front.filter(keep)[j] == kept[j]);
            }
        }
    }
}

/// Uniqueness, one step: an operation on a table that has at most one record
/// for each entity and component leaves such a table.
pub proof fn lemma_operation_keeps_unique(table: Seq<Record>, operation: Operation, now: int)
    requires
        unique(table),
    ensures
        unique(applied(table, operation, now)),
{
    match operation {
        Operation::Attach { entity, component, data } => {
            let after = attached(table, entity, component, data, now);
            if has_record(table, entity, component) {
                let index = choose|index: int| is_at(table, index, entity, component);
                assert forall|i: int, j: int| 0 <= i < j < after.len() implies !(
                #[trigger] after[i].entity == #[trigger] after[j].entity && after[i].component
                    == after[j].component) by {
                    assert(after[i].entity == table[i].entity);
                    assert(after[j].entity == table[j].entity);
                    assert(after[i].component == table[i].component);
                    assert(after[j].component == table[j].component);
                }
            } else {
                assert forall|i: int, j: int| 0 <= i < j < after.len() implies !(
                #[trigger] after[i].entity == #[trigger] after[j].entity && after[i].component
                    == after[j].component) by {
                    if j == table.len() {
                        assert(!is_at(table, i, entity, component));
                    } else {
                        assert(after[i] == table[i]);
                        assert(after[j] == table[j]);
                    }
                }
            }
        },
        Operation::AttachNew { component, data } => {
            let after = attached_new(table, component, data, now);
            lemma_fresh_id_is_new(table);
            if fresh_id(table) <= i64::MAX {
                assert forall|i: int, j: int| 0 <= i < j < after.len() implies !(
                #[trigger] after[i].entity == #[trigger] after[j].entity && after[i].component
                    == after[j].component) by {
                    if j == table.len() {
                        assert(after[i] == table[i]);
                        assert(table[i].entity < fresh_id(table));
                    } else {
                        assert(after[i] == table[i]);
                        assert(after[j] == table[j]);
                    }
                }
            }
        },
        Operation::Detach { entity, component } => {
            lemma_filter_keeps_unique(
                table,
                |record: Record| !(record.entity == entity && record.component == component),
            );
        },
        Operation::Destroy { entity } => {
            lemma_filter_keeps_unique(table, |record: Record| record.entity != entity);
        },
    }
}

/// Uniqueness: after any sequence of operations on the empty table, at most
/// one record exists for each entity and component.
pub proof fn lemma_uniqueness(operations: Seq<Operation>, times: Seq<int>)
    ensures
        unique(applied_all(Seq::empty(), operations, times)),
    decreases operations.len(),
{
    if operations.len() > 0 {
        lemma_uniqueness(operations.drop_last(), times);
        lemma_operation_keeps_unique(
            applied_all(Seq::empty(), operations.drop_last(), times),
            operations.last(),
            times[operations.len() - 1],
        );
    }
}

/// Idempotent write: attaching the value that the record of the entity and
/// component holds already changes nothing, whatever the time; the record's
/// time of modification stays.
pub proof fn lemma_same_value_changes_nothing(
    table: Seq<Record>,
    index: int,
    now: int,
)
    requires
        unique(table),
        0 <= index < table.len(),
    ensures
        attached(
            table,
            table[index].entity,
            table[index].component,
            table[index].data,
            now,
        ) == table,
{
    let entity = table[index].entity;
    let component = table[index].component;
    assert(is_at(table, index, entity, component));
    let chosen = choose|chosen: int| is_at(table, chosen, entity, component);
    assert(chosen == index) by {
        if chosen < index {
            assert(table[chosen].entity == table[index].entity);
        } else if index < chosen {
            assert(table[index].entity == table[chosen].entity);
        }
    }
}

/// What was attached is there: after an attach that the model describes the
/// table has the record, with the value attached, and the entity exists.
pub proof fn lemma_attach_writes(
    table: Seq<Record>,
    entity: EntityId,
    component: Seq<char>,
    data: StoreValueView,
    now: int,
)
    requires
        unique(table),
        describes_write(table, entity, component, data),
    ensures
        exists|index: int|
            is_at(attached(table, entity, component, data, now), index, entity, component)
                && attached(table, entity, component, data, now)[index].data == data,
        exists_in(attached(table, entity, component, data, now), entity),
{
    let after = attached(table, entity, component, data, now);
    if has_record(table, entity, component) {
        let index = choose|index: int| is_at(table, index, entity, component);
        assert(is_at(after, index, entity, component) && after[index].data == data);
        assert(after[index].entity == entity);
    } else {
        let index = table.len() as int;
        assert(is_at(after, index, entity, component) && after[index].data == data);
        assert(after[index].entity == entity);
    }
}

/// Detaching removes the record and is no error where there is none: the
/// table then stays as it is.
pub proof fn lemma_detach_removes(table: Seq<Record>, entity: EntityId, component: Seq<char>)
    requires
        unique(table),
    ensures
        !has_record(detached(table, entity, component), entity, component),
        !has_record(table, entity, component) ==> detached(table, entity, component) == table,
{
    let keep = |record: Record| !(record.entity == entity && record.component == component);
    let after = detached(table, entity, component);
    lemma_filter_keeps_unique(table, keep);
    if has_record(after, entity, component) {
        let index = choose|index: int| is_at(after, index, entity, component);
        assert(after.contains(after[index]));
    }
    if !has_record(table, entity, component) {
        assert forall|i: int| 0 <= i < table.len() implies keep(#[trigger] table[i]) by {
            assert(!is_at(table, i, entity, component));
        }
        lemma_filter_all(table, keep);
    }
}

/// A filter that every record passes leaves the table as it is.
proof fn lemma_filter_all(table: Seq<Record>, keep: spec_fn(Record) -> bool)
    requires
        forall|i: int| 0 <= i < table.len() ==> keep(#[trigger] table[i]),
    ensures
        table.filter(keep) == table,
    decreases table.len(),
{
    reveal(Seq::filter);
    if table.len() > 0 {
        lemma_filter_all(table.drop_last(), keep);
        assert(table.drop_last().push(table.last()) =~= table);
    }
}

/// Destroying ends the entity, and is no error where the entity does not
/// exist: the table then stays as it is.
pub proof fn lemma_destroy_ends(table: Seq<Record>, entity: EntityId)
    requires
        unique(table),
    ensures
        !exists_in(destroyed(table, entity), entity),
        !exists_in(table, entity) ==> destroyed(table, entity) == table,
{
    let keep = |record: Record| record.entity != entity;
    let after = destroyed(table, entity);
    lemma_filter_keeps_unique(table, keep);
    if exists_in(after, entity) {
        let index = choose|index: int| 0 <= index < after.len() && after[index].entity == entity;
        assert(after.contains(after[index]));
    }
    if !exists_in(table, entity) {
        assert forall|i: int| 0 <= i < table.len() implies keep(#[trigger] table[i]) by {
            assert(table[i].entity != entity);
        }
        lemma_filter_all(table, keep);
    }
}

/// What attaching a bundle to a new entity does, where `entity` is the id
/// that the store gives the entity: the first member that is present makes
/// the entity, each later one that is present is attached to it, and a
/// member that is absent is skipped.
pub open spec fn new_attach_operations(
    entity: EntityId,
    data: Seq<(Seq<char>, Option<StoreValueView>)>,
) -> Seq<Operation>
    decreases data.len(),
{
    if data.len() == 0 {
        Seq::empty()
    } else {
        let before = new_attach_operations(entity, data.drop_last());
        match data.last().1 {
            None => before,
            Some(value) => if before.len() == 0 {
                seq![Operation::AttachNew { component: data.last().0, data: value }]
            } else {
                before.push(Operation::Attach { entity, component: data.last().0, data: value })
            },
        }
    }
}

/// Whether a member of the name `component` is present in the bundle.
pub open spec fn present_in(
    data: Seq<(Seq<char>, Option<StoreValueView>)>,
    component: Seq<char>,
) -> bool {
    exists|j: int| 0 <= j < data.len() && (#[trigger] data[j]).0 == component && data[j].1 is Some
}

/// Whether the member at `j` is present and the last present one of its
/// name, so that its value is the one that stays.
pub open spec fn stays(data: Seq<(Seq<char>, Option<StoreValueView>)>, j: int) -> bool {
    &&& 0 <= j < data.len()
    &&& data[j].1 is Some
    &&& forall|k: int|
        j < k < data.len() && (#[trigger] data[k]).1 is Some ==> data[k].0 != data[j].0
}

/// What the table is after a bundle was attached to a new entity.
pub open spec fn new_entity_attached(
    table: Seq<Record>,
    after: Seq<Record>,
    data: Seq<(Seq<char>, Option<StoreValueView>)>,
) -> bool {
    let entity = fresh_id(table) as i64;
    &&& table.len() <= after.len()
    &&& unique(after)
    &&& forall|i: int| 0 <= i < table.len() ==> #[trigger] after[i] == table[i]
    &&& forall|i: int| table.len() <= i < after.len() ==> (#[trigger] after[i]).entity == entity
    &&& forall|component: Seq<char>|
        #[trigger] has_record(after, entity, component) <==> present_in(data, component)
    &&& forall|j: int|
        stays(data, j) ==> #[trigger] has_value(after, entity, data[j].0, data[j].1->0)
}

/// Attaching a bundle to a new entity. The entity's id is one more than the
/// greatest id in use, and 100 on an empty table, so that no record has it
/// before. Afterwards the records that were there are as they were, every
/// record that was added is a record of the new entity, the entity has a
/// record of a component if and only if a member of that name is present in
/// the bundle, and each such record holds the value of the last present
/// member of its name. A bundle without a present member changes nothing.
/// The bundle holds no number, so that every write is compared as written.
pub proof fn lemma_new_entity_attach(
    table: Seq<Record>,
    data: Seq<(Seq<char>, Option<StoreValueView>)>,
    times: Seq<int>,
)
    requires
        unique(table),
        fresh_id(table) <= i64::MAX,
        without_numbers(data),
    ensures
        !exists_in(table, fresh_id(table) as i64),
        table.len() == 0 ==> fresh_id(table) == 100,
        new_entity_attached(
            table,
            applied_all(table, new_attach_operations(fresh_id(table) as i64, data), times),
            data,
        ),
        new_attach_operations(fresh_id(table) as i64, data).len() == 0 <==> forall|j: int|
            0 <= j < data.len() ==> (#[trigger] data[j]).1 is None,
        new_attach_operations(fresh_id(table) as i64, data).len() == 0 ==> applied_all(
            table,
            new_attach_operations(fresh_id(table) as i64, data),
            times,
        ) == table,
    decreases data.len(),
{
    lemma_fresh_id_is_new(table);
    let entity = fresh_id(table) as i64;
    if exists_in(table, entity) {
        let index = choose|index: int| 0 <= index < table.len() && table[index].entity == entity;
        assert(table[index].entity < fresh_id(table));
    }
    let operations = new_attach_operations(entity, data);
    let after = applied_all(table, operations, times);
    if data.len() == 0 {
        assert forall|component: Seq<char>| #[trigger]
            has_record(after, entity, component) <==> present_in(data, component) by {
            if has_record(after, entity, component) {
                let index = choose|index: int| is_at(after, index, entity, component);
                assert(table[index].entity < fresh_id(table));
            }
        }
    } else {
        let front = data.drop_last();
        let last = data.last();
        let before = new_attach_operations(entity, front);
        let middle = applied_all(table, before, times);
        assert(without_numbers(front)) by {
            assert forall|j: int| 0 <= j < front.len() implies front[j] == data[j] by {}
        }
        lemma_new_entity_attach(table, front, times);
        assert forall|j: int| 0 <= j < front.len() implies front[j] == data[j] by {}
        match last.1 {
            None => {
                assert(operations == before);
                assert forall|component: Seq<char>|
                    present_in(front, component) <==> present_in(data, component) by {
                    if present_in(front, component) {
                        let j = choose|j: int|
                            0 <= j < front.len() && (#[trigger] front[j]).0 == component
                                && front[j].1 is Some;
                        assert(data[j].0 == component && data[j].1 is Some);
                    }
                    if present_in(data, component) {
                        let j = choose|j: int|
                            0 <= j < data.len() && (#[trigger] data[j]).0 == component
                                && data[j].1 is Some;
                        assert(front[j].0 == component && front[j].1 is Some);
                    }
                }
                assert forall|j: int| stays(data, j) implies #[trigger] has_value(
                    after,
                    entity,
                    data[j].0,
                    data[j].1->0,
                ) by {
                    assert(j < front.len());
                    assert forall|k: int|
                        j < k < front.len() && (#[trigger] front[k]).1 is Some implies front[k].0
                        != front[j].0 by {
                        assert(data[k].1 is Some);
                    }
                    assert(stays(front, j));
                }
                if before.len() == 0 {
                    assert forall|j: int| 0 <= j < data.len() implies (#[trigger] data[j]).1
                        is None by {
                        if j < front.len() {
                            assert(front[j].1 is None);
                        }
                    }
                } else {
                    if forall|j: int| 0 <= j < data.len() ==> (#[trigger] data[j]).1 is None {
                        assert forall|j: int| 0 <= j < front.len() implies (#[trigger] front[j]).1
                            is None by {
                            assert(data[j].1 is None);
                        }
                    }
                }
            },
            Some(value) => {
                let component = last.0;
                let now = times[operations.len() - 1];
                assert(data[data.len() - 1].1 is Some);
                if before.len() == 0 {
                    assert(operations.drop_last() =~= Seq::<Operation>::empty());
                    assert(middle == table);
                    assert(applied_all(table, operations.drop_last(), times) == table);
                    assert(after == attached_new(table, component, value, now));
                    assert forall|j: int| 0 <= j < front.len() implies (#[trigger] front[j]).1
                        is None by {}
                } else {
                    assert(operations.drop_last() =~= before);
                    assert(after == attached(middle, entity, component, value, now));
                    lemma_operation_keeps_unique(
                        middle,
                        Operation::Attach { entity, component, data: value },
                        now,
                    );
                    if has_record(middle, entity, component) {
                        let index = choose|index: int| is_at(middle, index, entity, component);
                        if index < table.len() {
                            assert(middle[index] == table[index]);
                            assert(table[index].entity < fresh_id(table));
                        }
                    }
                }
                lemma_operation_keeps_unique(
                    table,
                    Operation::AttachNew { component, data: value },
                    now,
                );
                lemma_attach_writes(middle, entity, component, value, now);
                let written = after.len() - 1;
                assert forall|i: int| 0 <= i < table.len() implies #[trigger] after[i]
                    == table[i] by {
                    assert(middle[i] == table[i]);
                }
                assert forall|i: int| table.len() <= i < after.len() implies (
                #[trigger] after[i]).entity == entity by {
                    if i < middle.len() {
                        assert(middle[i].entity == entity);
                    }
                }
                assert forall|other: Seq<char>| #[trigger]
                    has_record(after, entity, other) <==> present_in(data, other) by {
                    if has_record(after, entity, other) {
                        let index = choose|index: int| is_at(after, index, entity, other);
                        if other != component {
                            assert(index < middle.len());
                            assert(is_at(middle, index, entity, other));
                            assert(has_record(middle, entity, other));
                            assert(present_in(front, other));
                            let j = choose|j: int|
                                0 <= j < front.len() && (#[trigger] front[j]).0 == other
                                    && front[j].1 is Some;
                            assert(data[j].0 == other && data[j].1 is Some);
                        }
                    }
                    if present_in(data, other) {
                        let j = choose|j: int|
                            0 <= j < data.len() && (#[trigger] data[j]).0 == other
                                && data[j].1 is Some;
                        if other != component {
                            assert(j < front.len());
                            assert(front[j].0 == other && front[j].1 is Some);
                            assert(present_in(front, other));
                            assert(has_record(middle, entity, other));
                            let index = choose|index: int| is_at(middle, index, entity, other);
                            assert(is_at(after, index, entity, other));
                        } else {
                            if before.len() == 0 {
                                assert(is_at(after, written, entity, component));
                            } else {
                                let index = choose|index: int|
                                    is_at(
                                        attached(middle, entity, component, value, now),
                                        index,
                                        entity,
                                        component,
                                    ) && attached(middle, entity, component, value, now)[index].data
                                        == value;
                                assert(is_at(after, index, entity, component));
                            }
                        }
                    }
                }
                assert forall|j: int| stays(data, j) implies #[trigger] has_value(
                    after,
                    entity,
                    data[j].0,
                    data[j].1->0,
                ) by {
                    if j == data.len() - 1 {
                        if before.len() == 0 {
                            assert(is_at(after, written, entity, component) && after[written].data
                                == value);
                        } else {
                            let index = choose|index: int|
                                is_at(
                                    attached(middle, entity, component, value, now),
                                    index,
                                    entity,
                                    component,
                                ) && attached(middle, entity, component, value, now)[index].data
                                    == value;
                            assert(is_at(after, index, entity, component) && after[index].data
                                == value);
                        }
                    } else {
                        assert(data[data.len() - 1].0 != data[j].0);
                        let name = front[j].0;
                        assert forall|k: int|
                            j < k < front.len() && (#[trigger] front[k]).1
                                is Some implies front[k].0 != name by {
                            assert(data[k].1 is Some);
                        }
                        assert(stays(front, j));
                        assert(has_value(middle, entity, front[j].0, front[j].1->0));
                        let index = choose|index: int|
                            #[trigger] is_at(middle, index, entity, front[j].0)
                                && middle[index].data == front[j].1->0;
                        assert(is_at(after, index, entity, data[j].0) && after[index].data
                            == data[j].1->0);
                    }
                }
            },
        }
    }
}

/// A new entity's id is greater than every id in use, and is 100 on an empty
/// table.
pub proof fn lemma_fresh_id_is_new(table: Seq<Record>)
    ensures
        forall|i: int| 0 <= i < table.len() ==> (#[trigger] table[i]).entity < fresh_id(table),
        table.len() == 0 ==> fresh_id(table) == 100,
    decreases table.len(),
{
    if table.len() > 0 {
        lemma_fresh_id_is_new(table.drop_last());
        assert forall|i: int| 0 <= i < table.len() implies (#[trigger] table[i]).entity
            < fresh_id(table) by {
            if i < table.len() - 1 {
                assert(table.drop_last()[i] == table[i]);
            }
        }
    }
}

/// How the engine compares stored values in range conditions.
pub ghost struct Comparison {
    /// The ordinal of a stored value: what the scalar function
    /// `extract_ordinal` hands out for it.
    pub ordinal: spec_fn(StoreValueView) -> StoreValueView,
    /// Whether the engine finds the first ordinal less than or equal to the
    /// second. It finds nothing of the kind where one of them is null.
    pub at_most: spec_fn(StoreValueView, StoreValueView) -> bool,
}

/// Whether a stored value lies in a range. Both bounds are inclusive, a null
/// bound is no bound, and the range without bounds holds the null values.
pub open spec fn in_range(
    data: StoreValueView,
    start: StoreValueView,
    end: StoreValueView,
    by: Comparison,
) -> bool {
    if start is Null && end is Null {
        data is Null
    } else if start is Null {
        (by.at_most)((by.ordinal)(data), (by.ordinal)(end))
    } else if end is Null {
        (by.at_most)((by.ordinal)(start), (by.ordinal)(data))
    } else {
        &&& (by.at_most)((by.ordinal)(start), (by.ordinal)(data))
        &&& (by.at_most)((by.ordinal)(data), (by.ordinal)(end))
    }
}

/// Whether the entity's record of the component holds `data`.
pub open spec fn has_value(
    table: Seq<Record>,
    entity: EntityId,
    component: Seq<char>,
    data: StoreValueView,
) -> bool {
    exists|index: int|
        #[trigger] is_at(table, index, entity, component) && table[index].data == data
}

/// Whether the entity's record of the component holds a value in the range.
pub open spec fn has_value_in_range(
    table: Seq<Record>,
    entity: EntityId,
    component: Seq<char>,
    start: StoreValueView,
    end: StoreValueView,
    by: Comparison,
) -> bool {
    exists|index: int|
        #[trigger] is_at(table, index, entity, component) && in_range(
            table[index].data,
            start,
            end,
            by,
        )
}

/// Whether an expression holds of an entity. A conjunction or disjunction
/// without members holds of every entity.
///
/// Where the expression asks for a value, the record's value is compared
/// with it as written (see `compared_as_written`): of a number asked of a
/// record that holds a number of another kind the model does not speak.
pub open spec fn holds(
    table: Seq<Record>,
    expr: FilterExpr,
    entity: EntityId,
    by: Comparison,
) -> bool
    decreases expr,
{
    match expr {
        FilterExpr::NoFilter => true,
        FilterExpr::And(members) => all_hold(table, members, entity, by),
        FilterExpr::Or(members) => members.len() == 0 || any_holds(table, members, entity, by),
        FilterExpr::EntityId(id) => entity == id,
        FilterExpr::WithComponent(component) => has_record(table, entity, component),
        FilterExpr::WithoutComponent(component) => !has_record(table, entity, component),
        FilterExpr::WithComponentData(component, data) => has_value(
            table,
            entity,
            component,
            data,
        ),
        FilterExpr::WithComponentDataRange { component, start, end } => has_value_in_range(
            table,
            entity,
            component,
            start,
            end,
            by,
        ),
    }
}

/// Whether every member holds of an entity.
pub open spec fn all_hold(
    table: Seq<Record>,
    members: Seq<FilterExpr>,
    entity: EntityId,
    by: Comparison,
) -> bool
    decreases members,
{
    if members.len() == 0 {
        true
    } else {
        all_hold(table, members.drop_last(), entity, by) && holds(
            table,
            members.last(),
            entity,
            by,
        )
    }
}

/// Whether at least one member holds of an entity.
pub open spec fn any_holds(
    table: Seq<Record>,
    members: Seq<FilterExpr>,
    entity: EntityId,
    by: Comparison,
) -> bool
    decreases members,
{
    if members.len() == 0 {
        false
    } else {
        any_holds(table, members.drop_last(), entity, by) || holds(
            table,
            members.last(),
            entity,
            by,
        )
    }
}

/// All members hold if and only if each one does, and one holds if and only
/// if there is one that does.
pub proof fn lemma_members_hold(
    table: Seq<Record>,
    members: Seq<FilterExpr>,
    entity: EntityId,
    by: Comparison,
)
    ensures
        all_hold(table, members, entity, by) <==> forall|i: int|
            0 <= i < members.len() ==> #[trigger] holds(table, members[i], entity, by),
        any_holds(table, members, entity, by) <==> exists|i: int|
            0 <= i < members.len() && #[trigger] holds(table, members[i], entity, by),
    decreases members.len(),
{
    if members.len() > 0 {
        let front = members.drop_last();
        lemma_members_hold(table, front, entity, by);
        assert forall|i: int| 0 <= i < front.len() implies front[i] == members[i] by {}
        if all_hold(table, members, entity, by) {
            assert forall|i: int| 0 <= i < members.len() implies #[trigger] holds(
                table,
                members[i],
                entity,
                by,
            ) by {
                if i < front.len() {
                    assert(holds(table, front[i], entity, by));
                }
            }
        }
        if forall|i: int|
            0 <= i < members.len() ==> #[trigger] holds(table, members[i], entity, by) {
            assert forall|i: int| 0 <= i < front.len() implies #[trigger] holds(
                table,
                front[i],
                entity,
                by,
            ) by {
                assert(holds(table, members[i], entity, by));
            }
            assert(holds(table, members[members.len() - 1], entity, by));
        }
        if any_holds(table, members, entity, by) {
            if any_holds(table, front, entity, by) {
                let i = choose|i: int|
                    0 <= i < front.len() && #[trigger] holds(table, front[i], entity, by);
                assert(holds(table, members[i], entity, by));
            } else {
                assert(holds(table, members[members.len() - 1], entity, by));
            }
        }
        if exists|i: int|
            0 <= i < members.len() && #[trigger] holds(table, members[i], entity, by) {
            let i = choose|i: int|
                0 <= i < members.len() && #[trigger] holds(table, members[i], entity, by);
            if i < front.len() {
                assert(holds(table, front[i], entity, by));
            }
        }
    }
}

/// The entities that an expression selects: those that exist and of which
/// the expression holds.
pub open spec fn selected(table: Seq<Record>, expr: FilterExpr, by: Comparison) -> Set<EntityId> {
    Set::new(|entity: EntityId| exists_in(table, entity) && holds(table, expr, entity, by))
}

/// A conjunction of two selects what both select.
pub proof fn lemma_and_intersects(
    table: Seq<Record>,
    left: FilterExpr,
    right: FilterExpr,
    by: Comparison,
)
    ensures
        selected(table, FilterExpr::And(seq![left, right]), by) == selected(
            table,
            left,
            by,
        ).intersect(selected(table, right, by)),
{
    let both = FilterExpr::And(seq![left, right]);
    let members = seq![left, right];

    assert forall|entity: EntityId|
        holds(table, both, entity, by) <==> holds(table, left, entity, by) && holds(
            table,
            right,
            entity,
            by,
        ) by {
        lemma_members_hold(table, members, entity, by);
        assert(members[0] == left);
        assert(members[1] == right);
        if holds(table, both, entity, by) {
            assert(holds(table, members[0], entity, by));
            assert(holds(table, members[1], entity, by));
        }
    }
    assert(selected(table, both, by) =~= selected(table, left, by).intersect(
        selected(table, right, by),
    ));
}

/// A disjunction of two selects what either selects.
pub proof fn lemma_or_unites(
    table: Seq<Record>,
    left: FilterExpr,
    right: FilterExpr,
    by: Comparison,
)
    ensures
        selected(table, FilterExpr::Or(seq![left, right]), by) == selected(table, left, by).union(
            selected(table, right, by),
        ),
{
    let either = FilterExpr::Or(seq![left, right]);
    let members = seq![left, right];

    assert forall|entity: EntityId|
        holds(table, either, entity, by) <==> holds(table, left, entity, by) || holds(
            table,
            right,
            entity,
            by,
        ) by {
        lemma_members_hold(table, members, entity, by);
        assert(members[0] == left);
        assert(members[1] == right);
        if holds(table, left, entity, by) {
            assert(holds(table, members[0], entity, by));
        }
        if holds(table, right, entity, by) {
            assert(holds(table, members[1], entity, by));
        }
    }
    assert(selected(table, either, by) =~= selected(table, left, by).union(
        selected(table, right, by),
    ));
}

/// Presence algebra: no entity both has and lacks a component; having one of
/// two components selects the union of having either; and having both
/// selects exactly the entities that have each.
pub proof fn lemma_presence_algebra(table: Seq<Record>, a: Seq<char>, b: Seq<char>, by: Comparison)
    ensures
        selected(
            table,
            FilterExpr::And(seq![FilterExpr::WithComponent(a), FilterExpr::WithoutComponent(a)]),
            by,
        ) == Set::<EntityId>::empty(),
        selected(
            table,
            FilterExpr::Or(seq![FilterExpr::WithComponent(a), FilterExpr::WithComponent(b)]),
            by,
        ) == selected(table, FilterExpr::WithComponent(a), by).union(
            selected(table, FilterExpr::WithComponent(b), by),
        ),
        selected(
            table,
            FilterExpr::And(seq![FilterExpr::WithComponent(a), FilterExpr::WithComponent(b)]),
            by,
        ) == selected(table, FilterExpr::WithComponent(a), by).intersect(
            selected(table, FilterExpr::WithComponent(b), by),
        ),
{
    let with_a = FilterExpr::WithComponent(a);
    let without_a = FilterExpr::WithoutComponent(a);
    let with_b = FilterExpr::WithComponent(b);
    lemma_and_intersects(table, with_a, without_a, by);
    lemma_or_unites(table, with_a, with_b, by);
    lemma_and_intersects(table, with_a, with_b, by);
    assert(selected(table, with_a, by).intersect(selected(table, without_a, by))
        =~= Set::<EntityId>::empty());
}

/// Range boundary: a record whose value is a bound of the range lies in the
/// range, as long as the engine finds the value's ordinal at most itself (it
/// does so of every ordinal but null) and the value within the other bound.
pub proof fn lemma_range_includes_bounds(
    table: Seq<Record>,
    index: int,
    other: StoreValueView,
    by: Comparison,
)
    requires
        0 <= index < table.len(),
        !(table[index].data is Null),
        (by.at_most)((by.ordinal)(table[index].data), (by.ordinal)(table[index].data)),
    ensures
        other is Null || (by.at_most)((by.ordinal)(table[index].data), (by.ordinal)(other))
            ==> holds(
            table,
            FilterExpr::WithComponentDataRange {
                component: table[index].component,
                start: table[index].data,
                end: other,
            },
            table[index].entity,
            by,
        ),
        other is Null || (by.at_most)((by.ordinal)(other), (by.ordinal)(table[index].data))
            ==> holds(
            table,
            FilterExpr::WithComponentDataRange {
                component: table[index].component,
                start: other,
                end: table[index].data,
            },
            table[index].entity,
            by,
        ),
{
    assert(is_at(table, index, table[index].entity, table[index].component));
}

/// Half-open range: a range with a start and no end leaves out no record at
/// or above the start.
pub proof fn lemma_open_range_excludes_nothing_above(
    table: Seq<Record>,
    index: int,
    start: StoreValueView,
    by: Comparison,
)
    requires
        0 <= index < table.len(),
        !(start is Null),
        (by.at_most)((by.ordinal)(start), (by.ordinal)(table[index].data)),
    ensures
        holds(
            table,
            FilterExpr::WithComponentDataRange {
                component: table[index].component,
                start,
                end: StoreValueView::Null,
            },
            table[index].entity,
            by,
        ),
        selected(
            table,
            FilterExpr::WithComponentDataRange {
                component: table[index].component,
                start,
                end: StoreValueView::Null,
            },
            by,
        ).contains(table[index].entity),
{
    assert(is_at(table, index, table[index].entity, table[index].component));
    assert(table[index].entity == table[index].entity);
}

/// Whether no disjunction in the expression has, among its members, one
/// that matches every entity.
pub open spec fn without_vacuous_disjunct(expr: FilterExpr) -> bool
    decreases expr,
{
    match expr {
        FilterExpr::And(members) => all_without_vacuous_disjunct(members, false),
        FilterExpr::Or(members) => all_without_vacuous_disjunct(members, true),
        _ => true,
    }
}

/// Whether no member has a vacuous disjunct and, where `in_disjunction`, no
/// member matches every entity.
pub open spec fn all_without_vacuous_disjunct(
    members: Seq<FilterExpr>,
    in_disjunction: bool,
) -> bool
    decreases members,
{
    if members.len() == 0 {
        true
    } else {
        &&& all_without_vacuous_disjunct(members.drop_last(), in_disjunction)
        &&& without_vacuous_disjunct(members.last())
        &&& in_disjunction ==> !(members.last() is NoFilter)
    }
}

/// Simplification selects no more than the expression does; and it selects
/// the same where no disjunction has a member that matches every entity.
pub proof fn lemma_simplified_holds(
    table: Seq<Record>,
    expr: FilterExpr,
    entity: EntityId,
    by: Comparison,
)
    ensures
        holds(table, simplified(expr), entity, by) ==> holds(table, expr, entity, by),
        without_vacuous_disjunct(expr) ==> (holds(table, simplified(expr), entity, by) <==> holds(
            table,
            expr,
            entity,
            by,
        )),
    decreases expr,
{
    match expr {
        FilterExpr::And(members) => {
            lemma_simplified_members_hold(table, members, entity, by);
        },
        FilterExpr::Or(members) => {
            lemma_simplified_members_hold(table, members, entity, by);
        },
        _ => {},
    }
}

/// Simplification of the members of a conjunction or disjunction.
proof fn lemma_simplified_members_hold(
    table: Seq<Record>,
    members: Seq<FilterExpr>,
    entity: EntityId,
    by: Comparison,
)
    ensures
        all_hold(table, simplified_members(members), entity, by) ==> all_hold(
            table,
            members,
            entity,
            by,
        ),
        any_holds(table, simplified_members(members), entity, by) ==> any_holds(
            table,
            members,
            entity,
            by,
        ),
        simplified_members(members).len() == 0 && members.len() > 0 ==> any_holds(
            table,
            members,
            entity,
            by,
        ),
        all_without_vacuous_disjunct(members, false) ==> (all_hold(
            table,
            simplified_members(members),
            entity,
            by,
        ) <==> all_hold(table, members, entity, by)),
        all_without_vacuous_disjunct(members, true) ==> simplified_members(members).len()
            == members.len() && (any_holds(table, simplified_members(members), entity, by)
            <==> any_holds(table, members, entity, by)),
    decreases members,
{
    if members.len() > 0 {
        let front = members.drop_last();
        let last = members.last();
        lemma_simplified_members_hold(table, front, entity, by);
        lemma_simplified_holds(table, last, entity, by);
        let kept = simplified_members(members);
        if !(last is NoFilter) {
            assert(kept.drop_last() =~= simplified_members(front));
            assert(kept.last() == simplified(last));
        }
    }
}

/// Simplifying twice is simplifying once: a simplified expression has no
/// member left to drop.
pub proof fn lemma_simplified_is_simple(expr: FilterExpr)
    ensures
        simplified(simplified(expr)) == simplified(expr),
    decreases expr,
{
    match expr {
        FilterExpr::And(members) => {
            lemma_simplified_members_are_simple(members);
        },
        FilterExpr::Or(members) => {
            lemma_simplified_members_are_simple(members);
        },
        _ => {},
    }
}

/// The members that simplification keeps stay when simplified again.
proof fn lemma_simplified_members_are_simple(members: Seq<FilterExpr>)
    ensures
        simplified_members(simplified_members(members)) == simplified_members(members),
    decreases members,
{
    if members.len() > 0 {
        let front = members.drop_last();
        let last = members.last();
        lemma_simplified_members_are_simple(front);
        lemma_simplified_is_simple(last);
        let kept = simplified_members(members);
        if !(last is NoFilter) {
            assert(kept.drop_last() =~= simplified_members(front));
            assert(kept.last() == simplified(last));
            assert(!(simplified(last) is NoFilter));
        }
    }
}

} // verus!
