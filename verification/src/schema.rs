//! The tables of the store.

use vstd::prelude::*;

verus! {

/// Creates the tables of the store where they are missing.
///
/// `components` holds one record for each pair of entity and component; the
/// pair is the table's key, so a second write of the same pair replaces the
/// first. A record's `last_modified` is set when the record is written and
/// again whenever its `data` changes. `changes` is the log of what was done
/// to entities, and `resources` holds the values that are stored once.
pub const SCHEMA: &'static str = "
create table if not exists components (
    entity integer not null,
    component text not null,
    data any,
    last_modified text not null default (strftime('%Y-%m-%dT%H:%M:%fZ', 'now')),
    primary key (entity, component)
) strict;

create trigger if not exists components_last_modified
after update of data on components
for each row
begin
    update components
    set last_modified = strftime('%Y-%m-%dT%H:%M:%fZ', 'now')
    where entity = new.entity and component = new.component;
end;

create table if not exists changes (
    sequence integer primary key autoincrement,
    entity integer not null,
    component text,
    change text not null
) strict;

create table if not exists resources (
    name text primary key,
    data any
) strict;
";

} // verus!
