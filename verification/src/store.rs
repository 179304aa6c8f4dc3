//! The entry store: the table of todo records and its five operations —
//! create, read (optionally filtered), status update, field edit, delete.
//!
//! Every operation's effect is stated over the store's view, a sequence of
//! entry shadows, through the `spec_*` transition functions below; the
//! executable operations are proved to implement exactly those transitions.

use vstd::prelude::*;
use crate::cli::{entry_matches, Flag, FlagView};
use crate::entry::{EditedEntry, EditedEntryView, Entry, EntryView, NewEntry, NewEntryView};
use crate::status::Status;
use crate::util::{str_eq, trim_spaces, trim_spec};

verus! {

/// A storage failure. The in-memory table can fail a write only by running
/// out of identifiers.
#[derive(Clone, Copy, Debug, PartialEq, Eq, Structural)]
pub enum StoreError {
    Full,
}

/// The entry shadows of a sequence of records.
pub open spec fn views_of(v: Seq<Entry>) -> Seq<EntryView> {
    v.map_values(|e: Entry| e@)
}

/// The entry a creation request turns into when the store assigns it `id`:
/// title and description trimmed defensively, status forced to `Active`.
pub open spec fn created_entry(n: NewEntryView, id: int) -> EntryView {
    EntryView {
        id: id,
        title: trim_spec(n.title),
        description: trim_spec(n.description),
        status: Status::Active,
        category: n.category,
    }
}

/// Creation appends the one new entry; nothing else moves.
pub open spec fn spec_create(s: Seq<EntryView>, n: NewEntryView, id: int) -> Seq<EntryView> {
    s.push(created_entry(n, id))
}

/// The filter predicate a flag stands for.
pub open spec fn flag_pred(f: FlagView) -> spec_fn(EntryView) -> bool {
    |e: EntryView| entry_matches(e, f)
}

/// A read returns every entry, in store order, narrowed by the filter if
/// one is given.
pub open spec fn spec_read(s: Seq<EntryView>, f: Option<FlagView>) -> Seq<EntryView> {
    match f {
        None => s,
        Some(fv) => s.filter(flag_pred(fv)),
    }
}

/// One entry after a status update aimed at `title`: the status changes on
/// an exact title match, everything else is kept.
pub open spec fn update_one(e: EntryView, title: Seq<char>, st: Status) -> EntryView {
    if e.title == title {
        EntryView {
            id: e.id,
            title: e.title,
            description: e.description,
            status: st,
            category: e.category,
        }
    } else {
        e
    }
}

/// A status update rewrites every entry whose title matches exactly;
/// zero matches leave the store unchanged.
pub open spec fn spec_update(s: Seq<EntryView>, title: Seq<char>, st: Status) -> Seq<EntryView> {
    s.map_values(|e: EntryView| update_one(e, title, st))
}

/// One entry after an edit aimed at `title`: on an exact title match the
/// three payload fields overwrite the entry's, `id` and status are kept.
pub open spec fn edit_one(e: EntryView, title: Seq<char>, ed: EditedEntryView) -> EntryView {
    if e.title == title {
        EntryView {
            id: e.id,
            title: ed.title,
            description: ed.description,
            status: e.status,
            category: ed.category,
        }
    } else {
        e
    }
}

/// An edit rewrites every entry whose title matches exactly; zero matches
/// leave the store unchanged.
pub open spec fn spec_edit(s: Seq<EntryView>, title: Seq<char>, ed: EditedEntryView) -> Seq<
    EntryView,
> {
    s.map_values(|e: EntryView| edit_one(e, title, ed))
}

/// The predicate a delete filters with: keep an entry iff its title is not
/// the deleted one.
pub open spec fn keeps_title(title: Seq<char>) -> spec_fn(EntryView) -> bool {
    |e: EntryView| e.title != title
}

/// A delete keeps exactly the entries whose title does not match.
pub open spec fn spec_delete(s: Seq<EntryView>, title: Seq<char>) -> Seq<EntryView> {
    s.filter(keeps_title(title))
}

/// Filtering keeps every element inside the original sequence, keeps the
/// identifier bounds, and keeps identifiers pairwise distinct.
pub proof fn lemma_filter_keeps_ids(s: Seq<EntryView>, pred: spec_fn(EntryView) -> bool, bound: int)
    requires
        forall|i: int| 0 <= i < s.len() ==> 1 <= (#[trigger] s[i]).id < bound,
        forall|i: int, j: int| 0 <= i < j < s.len() ==> s[i].id != s[j].id,
    ensures
        forall|k: int|
            0 <= k < s.filter(pred).len() ==> 1 <= (#[trigger] s.filter(pred)[k]).id < bound,
        forall|k1: int, k2: int|
            0 <= k1 < k2 < s.filter(pred).len() ==> s.filter(pred)[k1].id != s.filter(pred)[k2].id,
        forall|k: int| 0 <= k < s.filter(pred).len() ==> s.contains(#[trigger] s.filter(pred)[k]),
    decreases s.len(),
{
    reveal(Seq::filter);
    if s.len() > 0 {
        let t = s.drop_last();
        let x = s.last();
        lemma_filter_keeps_ids(t, pred, bound);
        assert forall|k: int|
            0 <= k < s.filter(pred).len() implies s.contains(#[trigger] s.filter(pred)[k]) by {
            if pred(x) && k == s.filter(pred).len() - 1 {
                assert(s.filter(pred)[k] == s[s.len() - 1]);
            } else {
                assert(s.filter(pred)[k] == t.filter(pred)[k]);
                assert(t.contains(t.filter(pred)[k]));
                let j = choose|j: int| 0 <= j < t.len() && t[j] == t.filter(pred)[k];
                assert(s[j] == s.filter(pred)[k]);
            }
        }
        assert forall|k1: int, k2: int|
            0 <= k1 < k2 < s.filter(pred).len() implies s.filter(pred)[k1].id != s.filter(
            pred,
        )[k2].id by {
            if pred(x) && k2 == s.filter(pred).len() - 1 {
                assert(t.contains(t.filter(pred)[k1]));
                let j = choose|j: int| 0 <= j < t.len() && t[j] == t.filter(pred)[k1];
                assert(s[j].id != s[s.len() - 1].id);
            } else {
                assert(s.filter(pred)[k1] == t.filter(pred)[k1]);
                assert(s.filter(pred)[k2] == t.filter(pred)[k2]);
            }
        }
    }
}

/// The table of todo records. `next_id` is the identifier the next created
/// entry will get; identifiers are never reused or mutated.
pub struct Store {
    pub entries: Vec<Entry>,
    pub next_id: i32,
}

impl View for Store {
    type V = Seq<EntryView>;

    open spec fn view(&self) -> Seq<EntryView> {
        views_of(self.entries@)
    }
}

impl Store {
    /// Well-formedness: identifiers are positive, below `next_id`, and
    /// pairwise distinct.
    pub open spec fn wf(self) -> bool {
        &&& 1 <= self.next_id
        &&& forall|i: int| 0 <= i < self@.len() ==> 1 <= (#[trigger] self@[i]).id < self.next_id
        &&& forall|i: int, j: int|
            0 <= i < j < self@.len() ==> (#[trigger] self@[i]).id != (#[trigger] self@[j]).id
    }

    /// An empty store; the first entry will get identifier 1.
    pub fn new() -> (r: Store)
        ensures
            r@ == Seq::<EntryView>::empty(),
            r.next_id == 1,
            r.wf(),
    {
        let r = Store { entries: Vec::new(), next_id: 1 };
        proof {
            assert(r@ =~= Seq::<EntryView>::empty());
        }
        r
    }

    /// Inserts a new record: title and description are trimmed defensively,
    /// the status is fixed to `Active` whatever the request carried, and the
    /// store assigns the next identifier. Returns the persisted entry, or
    /// `Full` exactly when the identifier space is exhausted.
    pub fn create_entry(&mut self, new_entry: NewEntry) -> (r: Result<Entry, StoreError>)
        requires
            old(self).wf(),
        ensures
            final(self).wf(),
            match r {
                Ok(e) => {
                    &&& old(self).next_id < i32::MAX
                    &&& e@ == created_entry(new_entry@, old(self).next_id as int)
                    &&& final(self)@ == spec_create(
                        old(self)@,
                        new_entry@,
                        old(self).next_id as int,
                    )
                    &&& final(self).next_id == old(self).next_id + 1
                },
                Err(err) => {
                    &&& err == StoreError::Full
                    &&& old(self).next_id == i32::MAX
                    &&& final(self)@ == old(self)@
                    &&& final(self).next_id == old(self).next_id
                },
            },
    {
        if self.next_id == i32::MAX {
            return Err(StoreError::Full);
        }
        let id = self.next_id;
        let e = Entry {
            id: id,
            title: trim_spaces(new_entry.title.as_str()),
            description: trim_spaces(new_entry.description.as_str()),
            status: Status::Active,
            category: new_entry.category,
        };
        let persisted = e.duplicate();
        self.entries.push(e);
        self.next_id = id + 1;
        proof {
            assert(self@ =~= spec_create(old(self)@, new_entry@, old(self).next_id as int));
        }
        Ok(persisted)
    }

    /// Fetches all the entries, in store order. Never fails.
    pub fn get_entries(&self) -> (r: Result<Vec<Entry>, StoreError>)
        ensures
            match r {
                Ok(v) => views_of(v@) == spec_read(self@, None),
                Err(_) => false,
            },
    {
        let mut out: Vec<Entry> = Vec::new();
        let n = self.entries.len();
        let mut i: usize = 0;
        while i < n
            invariant
                0 <= i <= n,
                n == self.entries@.len(),
                out@.len() == i,
                forall|k: int| 0 <= k < i ==> (#[trigger] out@[k])@ == self@[k],
            decreases n - i,
        {
            let e = &self.entries[i];
            out.push(e.duplicate());
            i = i + 1;
        }
        proof {
            assert(views_of(out@) =~= spec_read(self@, None));
        }
        Ok(out)
    }

    /// Fetches the entries that pass the given filter, in store order.
    /// Never fails; an empty result is a valid result.
    pub fn get_entries_with_flag(&self, flag: Flag) -> (r: Result<Vec<Entry>, StoreError>)
        ensures
            match r {
                Ok(v) => views_of(v@) == spec_read(self@, Some(flag@)),
                Err(_) => false,
            },
    {
        let mut out: Vec<Entry> = Vec::new();
        let n = self.entries.len();
        let mut i: usize = 0;
        while i < n
            invariant
                0 <= i <= n,
                n == self.entries@.len(),
                views_of(out@) == self@.take(i as int).filter(flag_pred(flag@)),
            decreases n - i,
        {
            let e = &self.entries[i];
            proof {
                assert(self@.take(i + 1 as int).drop_last() =~= self@.take(i as int));
                assert(self@.take(i + 1 as int).last() == self@[i as int]);
                self@.take(i as int).lemma_filter_push(self@[i as int], flag_pred(flag@));
                assert(self@.take(i as int).push(self@[i as int]) =~= self@.take(i + 1 as int));
            }
            if flag.admits(e) {
                out.push(e.duplicate());
                proof {
                    assert(views_of(out@) =~= self@.take(i as int).filter(flag_pred(flag@)).push(
                        self@[i as int],
                    ));
                }
            }
            i = i + 1;
        }
        proof {
            assert(self@.take(n as int) =~= self@);
        }
        Ok(out)
    }

    /// Sets the status of every entry whose title matches exactly. Zero
    /// matches is a successful no-op, not an error; the operation never
    /// fails.
    pub fn update_entry(&mut self, entry_title: String, status: Status) -> (r: Result<
        (),
        StoreError,
    >)
        requires
            old(self).wf(),
        ensures
            r is Ok,
            final(self)@ == spec_update(old(self)@, entry_title@, status),
            final(self).next_id == old(self).next_id,
            final(self).wf(),
    {
        let mut out: Vec<Entry> = Vec::new();
        let n = self.entries.len();
        let mut i: usize = 0;
        while i < n
            invariant
                0 <= i <= n,
                *self == *old(self),
                n == self.entries@.len(),
                out@.len() == i,
                forall|k: int|
                    0 <= k < i ==> (#[trigger] out@[k])@ == update_one(
                        self@[k],
                        entry_title@,
                        status,
                    ),
            decreases n - i,
        {
            let e = &self.entries[i];
            if str_eq(e.title.as_str(), entry_title.as_str()) {
                out.push(
                    Entry {
                        id: e.id,
                        title: e.title.clone(),
                        description: e.description.clone(),
                        status: status,
                        category: e.category,
                    },
                );
            } else {
                out.push(e.duplicate());
            }
            i = i + 1;
        }
        proof {
            assert(views_of(out@) =~= spec_update(self@, entry_title@, status));
        }
        self.entries = out;
        proof {
            assert forall|k: int| 0 <= k < final(self)@.len() implies (#[trigger] final(self)@[k]).id == old(self)@[k].id by {}
        }
        Ok(())
    }

    /// Overwrites title, description and category of every entry whose title
    /// matches exactly, with the values in the payload; `id` and status are
    /// kept. Zero matches is a successful no-op; the operation never fails.
    pub fn edit_entry(&mut self, entry_title: String, updated_entry: EditedEntry) -> (r: Result<
        (),
        StoreError,
    >)
        requires
            old(self).wf(),
        ensures
            r is Ok,
            final(self)@ == spec_edit(old(self)@, entry_title@, updated_entry@),
            final(self).next_id == old(self).next_id,
            final(self).wf(),
    {
        let mut out: Vec<Entry> = Vec::new();
        let n = self.entries.len();
        let mut i: usize = 0;
        while i < n
            invariant
                0 <= i <= n,
                *self == *old(self),
                n == self.entries@.len(),
                out@.len() == i,
                forall|k: int|
                    0 <= k < i ==> (#[trigger] out@[k])@ == edit_one(
                        self@[k],
                        entry_title@,
                        updated_entry@,
                    ),
            decreases n - i,
        {
            let e = &self.entries[i];
            if str_eq(e.title.as_str(), entry_title.as_str()) {
                out.push(
                    Entry {
                        id: e.id,
                        title: updated_entry.title.clone(),
                        description: updated_entry.description.clone(),
                        status: e.status,
                        category: updated_entry.category,
                    },
                );
            } else {
                out.push(e.duplicate());
            }
            i = i + 1;
        }
        proof {
            assert(views_of(out@) =~= spec_edit(self@, entry_title@, updated_entry@));
        }
        self.entries = out;
        proof {
            assert forall|k: int| 0 <= k < final(self)@.len() implies (#[trigger] final(self)@[k]).id == old(self)@[k].id by {}
        }
        Ok(())
    }

    /// Removes every entry whose title matches exactly, keeping the rest in
    /// store order. Zero matches is a successful no-op; the operation never
    /// fails, and deleting the same title again is again a success.
    pub fn delete_entry(&mut self, entry_title: String) -> (r: Result<(), StoreError>)
        requires
            old(self).wf(),
        ensures
            r is Ok,
            final(self)@ == spec_delete(old(self)@, entry_title@),
            final(self).next_id == old(self).next_id,
            final(self).wf(),
    {
        let mut out: Vec<Entry> = Vec::new();
        let n = self.entries.len();
        let mut i: usize = 0;
        while i < n
            invariant
                0 <= i <= n,
                *self == *old(self),
                n == self.entries@.len(),
                views_of(out@) == self@.take(i as int).filter(keeps_title(entry_title@)),
            decreases n - i,
        {
            let e = &self.entries[i];
            proof {
                self@.take(i as int).lemma_filter_push(self@[i as int], keeps_title(entry_title@));
                assert(self@.take(i as int).push(self@[i as int]) =~= self@.take(i + 1 as int));
            }
            if !str_eq(e.title.as_str(), entry_title.as_str()) {
                out.push(e.duplicate());
                proof {
                    assert(views_of(out@) =~= self@.take(i as int).filter(
                        keeps_title(entry_title@),
                    ).push(self@[i as int]));
                }
            }
            i = i + 1;
        }
        proof {
            assert(self@.take(n as int) =~= self@);
        }
        self.entries = out;
        proof {
            lemma_filter_keeps_ids(old(self)@, keeps_title(entry_title@), old(self).next_id as int);
        }
        Ok(())
    }
}

} // verus!
