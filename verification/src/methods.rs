//! What the host store asks of the record type: its size in memory and its
//! form in a snapshot.

use vstd::prelude::*;
use crate::types::{Inventory, InventoryState, lemma_view_bounds, lemma_view_injective};

verus! {

/// The bytes of a record: two 32-bit fields.
pub const RECORD_BYTES: usize = 8;

/// The snapshot word of a state: the capacity in the low 32 bits, the
/// available quantity in the high 32 bits.
pub open spec fn word_of(state: InventoryState) -> nat {
    state.total + state.current * 0x1_0000_0000
}

/// The state that a snapshot word holds.
pub open spec fn state_of(word: nat) -> InventoryState {
    InventoryState { total: word % 0x1_0000_0000, current: word / 0x1_0000_0000 }
}

/// The number of bytes a record occupies.
pub fn mem_usage() -> (bytes: usize)
    ensures
        bytes == 8,
{
    RECORD_BYTES
}

/// The word that a snapshot holds for `value`.
pub fn rdb_save(value: &Inventory) -> (word: u64)
    ensures
        word == word_of(value@),
{
    let total: u64 = value.total() as u64;
    let current: u64 = value.current() as u64;
    current * 0x1_0000_0000 + total
}

/// The record that a snapshot read yields: none where the read failed,
/// otherwise the record that the word holds, taken as it is.
pub fn rdb_load(read: Option<u64>) -> (record: Option<Inventory>)
    ensures
        read is None ==> record is None,
        read matches Some(word) ==> record matches Some(r) && r@ == state_of(word as nat),
{
    match read {
        Some(word) => {
            let total: u32 = (word % 0x1_0000_0000) as u32;
            let current: u32 = (word / 0x1_0000_0000) as u32;
            Some(Inventory::from_parts(total, current))
        },
        None => None,
    }
}

/// Saving a record and loading the word gives the record back: whatever is
/// loaded from the word saved for `record` is `record`.
pub proof fn lemma_load_of_save(record: Inventory, loaded: Inventory)
    requires
        loaded@ == state_of(word_of(record@)),
    ensures
        loaded == record,
{
    lemma_view_bounds(record);
    lemma_view_injective(loaded, record);
}

/// Loading a word and saving the record gives the word back, so no two
/// words hold the same record.
pub proof fn lemma_save_of_load(word: u64)
    ensures
        word_of(state_of(word as nat)) == word,
{
}

} // verus!
