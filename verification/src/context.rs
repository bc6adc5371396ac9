//! The shared key-value context of stateful workers: what an update does to
//! one key's entry.

use vstd::prelude::*;

verus! {

/// What an update does to the entry under its key.
#[derive(Debug, Clone, Copy, PartialEq, Eq, Structural)]
pub enum EntryUpdate {
    /// The value the update function produced is stored under the key.
    Store,
    /// The key's entry is removed.
    Remove,
    /// Nothing changes: the key stays absent.
    Leave,
}

/// The change an update makes, given whether the key held a value and
/// whether the update function produced one: a produced value is stored; a
/// key that held a value and got none back is removed; an absent key that
/// got none stays absent.
pub fn entry_update(present: bool, produced: bool) -> (u: EntryUpdate)
    ensures
        u == (if produced {
            EntryUpdate::Store
        } else if present {
            EntryUpdate::Remove
        } else {
            EntryUpdate::Leave
        }),
{
    if produced {
        EntryUpdate::Store
    } else if present {
        EntryUpdate::Remove
    } else {
        EntryUpdate::Leave
    }
}

} // verus!
