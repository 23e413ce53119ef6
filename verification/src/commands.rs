//! The rules of the store's commands, as transitions of one key's slot.
//!
//! A slot holds the record stored under a key, or nothing. The host resolves
//! the key, hands the slot in, and stores what the command left in it.

use vstd::prelude::*;
use crate::types::{Inventory, InventoryState};

verus! {

/// What a command answers.
#[derive(Debug, Clone, Copy, PartialEq, Eq)]
pub enum Reply {
    /// The command was carried out and has nothing to report.
    Done,
    /// The key holds no record.
    Null,
    /// The quantity that is available now.
    Current(u32),
    /// The record's capacity and available quantity.
    Pair { total: u32, current: u32 },
}

/// Why a command was refused. A refused command leaves the slot as it was.
#[derive(Debug, Clone, Copy, PartialEq, Eq)]
pub enum CommandError {
    /// A quantity does not fit the record's 32-bit fields.
    OutOfRange,
    /// A record was to be created under a key that holds one.
    AlreadyExists,
    /// More was to be deducted than is available.
    Shortage,
    /// More was to be returned than had been taken.
    OverReturn,
}

impl CommandError {
    /// The text of the refusal, for a command on the key named `key`.
    pub open spec fn text(self, key: Seq<char>) -> Seq<char> {
        match self {
            CommandError::OutOfRange => "out of range, max = 4294967295"@,
            CommandError::AlreadyExists => "Inventory '"@ + key + "' exists"@,
            CommandError::Shortage => "Inventory shortage"@,
            CommandError::OverReturn => "Remaining inventory exceeding total"@,
        }
    }

    /// The text of the refusal, for a command on the key named `key`.
    pub fn message(&self, key: &str) -> (text: String)
        ensures
            text@ == self.text(key@),
    {
        match self {
            CommandError::OutOfRange => String::from_str("out of range, max = 4294967295"),
            CommandError::AlreadyExists => {
                let mut text = String::from_str("Inventory '");
                text.append(key);
                text.append("' exists");
                text
            },
            CommandError::Shortage => String::from_str("Inventory shortage"),
            CommandError::OverReturn => String::from_str("Remaining inventory exceeding total"),
        }
    }
}

/// The answer that reports a slot's record: its pair, or null for an empty
/// slot.
pub open spec fn report(slot: Option<Inventory>) -> Reply {
    match slot {
        Some(record) => Reply::Pair {
            total: record@.total as u32,
            current: record@.current as u32,
        },
        None => Reply::Null,
    }
}

/// A quantity as the host's argument layer gives it, narrowed to the width
/// of the record's fields; one that does not fit is out of range.
pub open spec fn narrowed(value: u64) -> Result<u32, CommandError> {
    if value <= u32::MAX {
        Ok(value as u32)
    } else {
        Err(CommandError::OutOfRange)
    }
}

/// Narrows a quantity to the width of the record's fields, and refuses one
/// that does not fit.
pub fn to_u32(value: u64) -> (narrow: Result<u32, CommandError>)
    ensures
        narrow == narrowed(value),
{
    if value > 0xffff_ffff {
        Err(CommandError::OutOfRange)
    } else {
        Ok(value as u32)
    }
}

/// The count of a deduction: the one given, narrowed, or one where none is
/// given.
pub fn deduction_count(given: Option<u64>) -> (count: Result<u32, CommandError>)
    ensures
        given is None ==> count == Ok::<u32, CommandError>(1),
        given matches Some(value) ==> count == narrowed(value),
{
    match given {
        Some(value) => to_u32(value),
        None => Ok(1),
    }
}

/// Stores a full inventory of `total` units under the key, whether or not it
/// held a record.
pub fn create_inventory(slot: &mut Option<Inventory>, total: u32) -> (reply: Reply)
    ensures
        *final(slot) matches Some(record) && record@ == InventoryState::full(total as nat),
        reply == Reply::Done,
{
    match slot {
        Some(value) => {
            value.reset(total);
        },
        None => {
            *slot = Some(Inventory::new(total));
        },
    }
    Reply::Done
}

/// Stores a full inventory of `total` units under a key that holds no
/// record, and refuses where it holds one.
pub fn create_new_inventory(slot: &mut Option<Inventory>, total: u32) -> (reply: Result<
    Reply,
    CommandError,
>)
    ensures
        *old(slot) is Some ==> reply == Err::<Reply, CommandError>(CommandError::AlreadyExists)
            && *final(slot) == *old(slot),
        *old(slot) is None ==> reply == Ok::<Reply, CommandError>(Reply::Done)
            && (*final(slot) matches Some(record)
            && record@ == InventoryState::full(total as nat)),
{
    if slot.is_some() {
        Err(CommandError::AlreadyExists)
    } else {
        *slot = Some(Inventory::new(total));
        Ok(Reply::Done)
    }
}

/// Reports the record under the key.
pub fn get(slot: &Option<Inventory>) -> (reply: Reply)
    ensures
        reply == report(*slot),
{
    match slot {
        Some(value) => Reply::Pair { total: value.total(), current: value.current() },
        None => Reply::Null,
    }
}

/// Deducts `count` units from the record under the key. An empty slot is
/// answered with null; a record that holds fewer than `count` refuses.
pub fn deduct_inventory(slot: &mut Option<Inventory>, count: u32) -> (reply: Result<
    Reply,
    CommandError,
>)
    ensures
        *old(slot) is None ==> reply == Ok::<Reply, CommandError>(Reply::Null)
            && *final(slot) is None,
        *old(slot) matches Some(before) ==> if count > before@.current {
            reply == Err::<Reply, CommandError>(CommandError::Shortage)
                && *final(slot) == *old(slot)
        } else {
            reply == Ok::<Reply, CommandError>(Reply::Current((before@.current - count) as u32))
                && (*final(slot) matches Some(after) && after@.total == before@.total
                && after@.current == before@.current - count)
        },
{
    match slot {
        Some(value) => match value.take(count) {
            Some(current) => Ok(Reply::Current(current)),
            None => Err(CommandError::Shortage),
        },
        None => Ok(Reply::Null),
    }
}

/// Raises the capacity and the available quantity of the record under the
/// key by `by`, wrapping each at 2^32, and reports the new pair. An empty slot
/// is answered with null.
pub fn increase_inventory(slot: &mut Option<Inventory>, by: u32) -> (reply: Reply)
    ensures
        *old(slot) is None ==> reply == Reply::Null && *final(slot) is None,
        *old(slot) matches Some(before) ==> (*final(slot) matches Some(after) && after@
            == before@.raised(by as nat)),
        reply == report(*final(slot)),
{
    match slot {
        Some(value) => {
            let (total, current) = value.increase(by);
            Reply::Pair { total, current }
        },
        None => Reply::Null,
    }
}

/// Gives `amount` units back to the record under the key. An empty slot is
/// answered with null; a record that would hold more than its capacity
/// refuses.
pub fn return_inventory(slot: &mut Option<Inventory>, amount: u32) -> (reply: Result<
    Reply,
    CommandError,
>)
    ensures
        *old(slot) is None ==> reply == Ok::<Reply, CommandError>(Reply::Null)
            && *final(slot) is None,
        *old(slot) matches Some(before) ==> if before@.current + amount > before@.total {
            reply == Err::<Reply, CommandError>(CommandError::OverReturn)
                && *final(slot) == *old(slot)
        } else {
            reply == Ok::<Reply, CommandError>(Reply::Current((before@.current + amount) as u32))
                && (*final(slot) matches Some(after) && after@.total == before@.total
                && after@.current == before@.current + amount)
        },
{
    match slot {
        Some(value) => match value.return_(amount) {
            Some(current) => Ok(Reply::Current(current)),
            None => Err(CommandError::OverReturn),
        },
        None => Ok(Reply::Null),
    }
}

/// Reports the record under the key and empties the slot.
pub fn delete_inventory(slot: &mut Option<Inventory>) -> (reply: Reply)
    ensures
        reply == report(*old(slot)),
        *final(slot) is None,
{
    let reply = get(slot);
    *slot = None;
    reply
}

} // verus!
