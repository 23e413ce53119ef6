//! The inventory record and its transitions.

use vstd::prelude::*;

verus! {

/// What an inventory record stands for: a capacity and the quantity that is
/// presently available.
pub struct InventoryState {
    pub total: nat,
    pub current: nat,
}

impl InventoryState {
    /// A full inventory: everything that exists is available.
    pub open spec fn full(total: nat) -> InventoryState {
        InventoryState { total, current: total }
    }

    /// No more is available than exists.
    pub open spec fn consistent(self) -> bool {
        self.current <= self.total
    }

    /// Both quantities raised by `by`, each reduced modulo 2^32 as a 32-bit
    /// field holds it.
    pub open spec fn raised(self, by: nat) -> InventoryState {
        InventoryState {
            total: (self.total + by) % 0x1_0000_0000,
            current: (self.current + by) % 0x1_0000_0000,
        }
    }
}

/// The counter record: two 32-bit fields, eight bytes.
#[derive(Debug, Clone, Copy, PartialEq, Eq)]
pub struct Inventory {
    total: u32,
    current: u32,
}

impl View for Inventory {
    type V = InventoryState;

    closed spec fn view(&self) -> InventoryState {
        InventoryState { total: self.total as nat, current: self.current as nat }
    }
}

impl Inventory {
    /// A full inventory of `total` units.
    pub fn new(total: u32) -> (record: Inventory)
        ensures
            record@ == InventoryState::full(total as nat),
            record@.consistent(),
    {
        Inventory { total, current: total }
    }

    /// The record with the given capacity and available quantity, as a
    /// snapshot holds it: the two are taken as they are.
    pub(crate) fn from_parts(total: u32, current: u32) -> (record: Inventory)
        ensures
            record@ == (InventoryState { total: total as nat, current: current as nat }),
    {
        Inventory { total, current }
    }

    /// Makes the record a full inventory of `total` units, whatever it held.
    pub fn reset(&mut self, total: u32)
        ensures
            final(self)@ == InventoryState::full(total as nat),
            final(self)@.consistent(),
    {
        self.total = total;
        self.current = total;
    }

    /// Raises the capacity and what is available by `by`, wrapping each at
    /// 2^32, and returns the new pair, capacity first.
    pub fn increase(&mut self, by: u32) -> (pair: (u32, u32))
        ensures
            final(self)@ == old(self)@.raised(by as nat),
            pair.0 == final(self)@.total,
            pair.1 == final(self)@.current,
            old(self)@.total + by <= u32::MAX ==> final(self)@.total == old(self)@.total + by,
            old(self)@.current + by <= u32::MAX ==> final(self)@.current == old(self)@.current
                + by,
            old(self)@.consistent() ==> (final(self)@.consistent() <==> (old(self)@.total + by
                <= u32::MAX || old(self)@.current + by > u32::MAX)),
    {
        self.total = self.total.wrapping_add(by);
        self.current = self.current.wrapping_add(by);
        (self.total, self.current)
    }

    /// Deducts `count` units from what is available. Fails, and changes
    /// nothing, when fewer than `count` are available; otherwise returns what
    /// is left.
    pub fn take(&mut self, count: u32) -> (left: Option<u32>)
        ensures
            count > old(self)@.current ==> left is None && *final(self) == *old(self),
            count <= old(self)@.current ==> left == Some((old(self)@.current - count) as u32)
                && final(self)@.current == old(self)@.current - count
                && final(self)@.total == old(self)@.total,
            old(self)@.consistent() ==> final(self)@.consistent(),
    {
        if self.current < count {
            return None;
        }
        self.current -= count;
        Some(self.current)
    }

    /// Gives `amount` units back. Fails, and changes nothing, when that would
    /// make more available than exists; otherwise returns what is available
    /// now.
    pub fn return_(&mut self, amount: u32) -> (available: Option<u32>)
        ensures
            old(self)@.current + amount > old(self)@.total ==> available is None && *final(self)
                == *old(self),
            old(self)@.current + amount <= old(self)@.total ==> available == Some(
                (old(self)@.current + amount) as u32,
            ) && final(self)@.current == old(self)@.current + amount
                && final(self)@.total == old(self)@.total,
            old(self)@.consistent() ==> final(self)@.consistent(),
            available is Some ==> final(self)@.consistent(),
    {
        if amount > self.total || self.current > self.total - amount {
            return None;
        }
        self.current += amount;
        Some(self.current)
    }

    /// The capacity.
    pub fn total(&self) -> (total: u32)
        ensures
            total == self@.total,
    {
        self.total
    }

    /// The quantity presently available.
    pub fn current(&self) -> (current: u32)
        ensures
            current == self@.current,
    {
        self.current
    }
}

/// A record's quantities fit its 32-bit fields.
pub proof fn lemma_view_bounds(record: Inventory)
    ensures
        record@.total <= u32::MAX,
        record@.current <= u32::MAX,
{
}

/// Records that stand for the same state are the same record.
pub proof fn lemma_view_injective(a: Inventory, b: Inventory)
    requires
        a@ == b@,
    ensures
        a == b,
{
}

} // verus!
