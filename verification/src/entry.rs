//! The schema-shaped records of the entry store: the persisted `Entry` and
//! the two request payloads, `NewEntry` for creation and `EditedEntry` for
//! field edits.

use vstd::prelude::*;
use crate::category::Category;
use crate::status::Status;

verus! {

/// One persisted todo record. Every field is populated: `id` is assigned by
/// the store on creation and never reused or mutated.
#[derive(Debug, PartialEq, Eq)]
pub struct Entry {
    pub id: i32,
    pub title: String,
    pub description: String,
    pub status: Status,
    pub category: Category,
}

/// The mathematical shadow of an `Entry`.
pub ghost struct EntryView {
    pub id: int,
    pub title: Seq<char>,
    pub description: Seq<char>,
    pub status: Status,
    pub category: Category,
}

impl View for Entry {
    type V = EntryView;

    open spec fn view(&self) -> EntryView {
        EntryView {
            id: self.id as int,
            title: self.title@,
            description: self.description@,
            status: self.status,
            category: self.category,
        }
    }
}

impl Entry {
    /// A field-for-field copy of this entry.
    pub fn duplicate(&self) -> (r: Entry)
        ensures
            r@ == self@,
    {
        Entry {
            id: self.id,
            title: self.title.clone(),
            description: self.description.clone(),
            status: self.status,
            category: self.category,
        }
    }
}

/// A construction request: everything an entry carries except the `id`,
/// which the store assigns. Whatever status the caller puts here, creation
/// forces it to `Active`.
pub struct NewEntry {
    pub title: String,
    pub description: String,
    pub status: Status,
    pub category: Category,
}

/// The mathematical shadow of a `NewEntry`.
pub ghost struct NewEntryView {
    pub title: Seq<char>,
    pub description: Seq<char>,
    pub status: Status,
    pub category: Category,
}

impl View for NewEntry {
    type V = NewEntryView;

    open spec fn view(&self) -> NewEntryView {
        NewEntryView {
            title: self.title@,
            description: self.description@,
            status: self.status,
            category: self.category,
        }
    }
}

/// A partial-update payload: the three fields an edit overwrites. Status is
/// excluded; it is changed only through the dedicated status update. A field
/// the caller does not want changed must be pre-populated with the entry's
/// current value: the store overwrites all three, it does no merging.
pub struct EditedEntry {
    pub title: String,
    pub description: String,
    pub category: Category,
}

/// The mathematical shadow of an `EditedEntry`.
pub ghost struct EditedEntryView {
    pub title: Seq<char>,
    pub description: Seq<char>,
    pub category: Category,
}

impl View for EditedEntry {
    type V = EditedEntryView;

    open spec fn view(&self) -> EditedEntryView {
        EditedEntryView {
            title: self.title@,
            description: self.description@,
            category: self.category,
        }
    }
}

} // verus!
