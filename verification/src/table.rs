//! The resource table that a component's handles index.
//!
//! Handles are `u32` representations: the index Wasmtime's `ResourceTable` hands out for an
//! entry and reads a `Resource` by. Every entry this library stores is a [`TableEntry`], so
//! which kind of record a handle resolves to is decided by verified code, not by a downcast.

use vstd::prelude::*;
use wasmtime::component::{Resource, ResourceTable, ResourceTableError};

use crate::host::{HostCapability, HostFile};

verus! {

#[verifier::external_type_specification]
#[verifier::external_body]
pub struct ExResourceTable(ResourceTable);

/// The record one handle is backed by: a key capability or a file capability.
#[derive(Clone, Copy, Debug, PartialEq, Eq, Structural)]
pub enum TableEntry {
    Key(HostCapability),
    File(HostFile),
}

/// Why a table operation failed (the variants of Wasmtime's `ResourceTableError`).
#[derive(Clone, Copy, Debug, PartialEq, Eq, Structural)]
pub enum TableError {
    /// The table has no free index.
    Full,
    /// No entry has this index.
    NotPresent,
    /// The entry at this index is not a [`TableEntry`].
    WrongType,
    /// The entry has child entries and cannot be deleted.
    HasChildren,
}

/// What the table holds, by index: `Some(entry)` for a [`TableEntry`], `None` for an entry
/// of another type.
pub uninterp spec fn table_entries(table: ResourceTable) -> Map<u32, Option<TableEntry>>;

/// The number of entries beyond which the table refuses a push (its maximum capacity).
pub uninterp spec fn table_max_capacity(table: ResourceTable) -> nat;

/// How many indices the table has handed out in all: those occupied now and those freed and
/// kept for reuse.
pub uninterp spec fn table_slot_count(table: ResourceTable) -> nat;

/// The indices of the entries that have child entries.
pub uninterp spec fn table_parents(table: ResourceTable) -> Set<u32>;

/// The capacity limit `ResourceTable::new` gives a table.
pub open spec fn default_max_capacity() -> nat {
    1_000_000
}

/// `ResourceTable::new`: an empty table whose capacity limit is one million entries and
/// in which no entry has children.
#[verifier::external_body]
pub(crate) fn table_new() -> (fresh: ResourceTable)
    ensures
        table_entries(fresh).is_empty(),
        table_max_capacity(fresh) == default_max_capacity(),
        table_slot_count(fresh) == 0,
        table_parents(fresh) == Set::<u32>::empty(),
{
    ResourceTable::new()
}

/// `ResourceTable::push` of a [`TableEntry`]: on success the entry sits at an index that no
/// entry occupied before — a freed index, when there is one, or else a new one, which the
/// table hands out only below its capacity limit — and nothing else changes. A push fails,
/// changing nothing, only when no freed index is left and the table has handed out its
/// capacity limit of indices. A new entry has no children.
#[verifier::external_body]
pub(crate) fn table_push(table: &mut ResourceTable, entry: TableEntry) -> (res: Result<u32, TableError>)
    requires
        table_max_capacity(*old(table)) <= u32::MAX,
    ensures
        table_max_capacity(*final(table)) == table_max_capacity(*old(table)),
        table_parents(*final(table)) == table_parents(*old(table)),
        match res {
            Ok(rep) => {
                &&& !table_entries(*old(table)).contains_key(rep)
                &&& table_entries(*final(table)) == table_entries(*old(table)).insert(rep, Some(entry))
                &&& ({
                    ||| table_entries(*old(table)).dom().len() < table_slot_count(*old(table))
                        && table_slot_count(*final(table)) == table_slot_count(*old(table))
                    ||| table_slot_count(*old(table)) < table_max_capacity(*old(table))
                        && table_slot_count(*final(table)) == table_slot_count(*old(table)) + 1
                })
            },
            Err(e) => {
                &&& e == TableError::Full
                &&& table_entries(*old(table)).dom().len() == table_slot_count(*old(table))
                &&& table_slot_count(*old(table)) >= table_max_capacity(*old(table))
                &&& table_entries(*final(table)) == table_entries(*old(table))
                &&& table_slot_count(*final(table)) == table_slot_count(*old(table))
            },
        },
{
    match table.push(entry) {
        Ok(resource) => Ok(resource.rep()),
        Err(_) => Err(TableError::Full),
    }
}

/// `ResourceTable::get` of the [`TableEntry`] at index `rep`.
#[verifier::external_body]
pub(crate) fn table_get(table: &ResourceTable, rep: u32) -> (res: Result<TableEntry, TableError>)
    ensures
        res == match table_entries(*table).get(rep) {
            Some(Some(entry)) => Ok(entry),
            Some(None) => Err(TableError::WrongType),
            None => Err(TableError::NotPresent),
        },
{
    match table.get(&Resource::<TableEntry>::new_borrow(rep)) {
        Ok(entry) => Ok(*entry),
        Err(ResourceTableError::Full) => Err(TableError::Full),
        Err(ResourceTableError::NotPresent) => Err(TableError::NotPresent),
        Err(ResourceTableError::WrongType) => Err(TableError::WrongType),
        Err(ResourceTableError::HasChildren) => Err(TableError::HasChildren),
    }
}

/// `ResourceTable::delete` of the [`TableEntry`] at index `rep`: an entry without children
/// is removed, whatever its type, and handed back when it is a [`TableEntry`]; an entry with
/// children stays and the call fails; with no entry at `rep` nothing changes. A removed
/// entry's index is kept for reuse. No entry gains children.
#[verifier::external_body]
pub(crate) fn table_delete(table: &mut ResourceTable, rep: u32) -> (res: Result<TableEntry, TableError>)
    ensures
        table_max_capacity(*final(table)) == table_max_capacity(*old(table)),
        table_slot_count(*final(table)) == table_slot_count(*old(table)),
        table_parents(*final(table)).subset_of(table_parents(*old(table))),
        match table_entries(*old(table)).get(rep) {
            None => {
                &&& res == Err::<TableEntry, TableError>(TableError::NotPresent)
                &&& table_entries(*final(table)) == table_entries(*old(table))
            },
            Some(held) => if table_parents(*old(table)).contains(rep) {
                &&& res == Err::<TableEntry, TableError>(TableError::HasChildren)
                &&& table_entries(*final(table)) == table_entries(*old(table))
            } else {
                &&& table_entries(*final(table)) == table_entries(*old(table)).remove(rep)
                &&& res == match held {
                    Some(entry) => Ok(entry),
                    None => Err(TableError::WrongType),
                }
            },
        },
{
    match table.delete(Resource::<TableEntry>::new_own(rep)) {
        Ok(entry) => Ok(entry),
        Err(ResourceTableError::Full) => Err(TableError::Full),
        Err(ResourceTableError::NotPresent) => Err(TableError::NotPresent),
        Err(ResourceTableError::WrongType) => Err(TableError::WrongType),
        Err(ResourceTableError::HasChildren) => Err(TableError::HasChildren),
    }
}

} // verus!
