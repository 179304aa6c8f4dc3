//! The command vocabulary of the surrounding command-line tool, and the
//! optional read filter, as plain data. The argument-parsing layer builds
//! these values; the store consumes only `Flag`.

use vstd::prelude::*;
use crate::entry::{Entry, EntryView};
use crate::category::category_name;
use crate::status::status_name;
use crate::util::str_eq;

verus! {

/// An optional conjunctive read filter: an entry passes when its status
/// matches the given status text (if any) and its category matches the
/// given category text (if any).
pub struct Flag {
    pub category: Option<String>,
    pub status: Option<String>,
}

/// The mathematical shadow of a `Flag`.
pub ghost struct FlagView {
    pub category: Option<Seq<char>>,
    pub status: Option<Seq<char>>,
}

impl View for Flag {
    type V = FlagView;

    open spec fn view(&self) -> FlagView {
        FlagView { category: self.category.deep_view(), status: self.status.deep_view() }
    }
}

/// Whether an entry passes a filter: both given parts must match, and an
/// absent part matches everything.
pub open spec fn entry_matches(e: EntryView, f: FlagView) -> bool {
    &&& match f.status {
        Some(s) => status_name(e.status) == s,
        None => true,
    }
    &&& match f.category {
        Some(c) => category_name(e.category) == c,
        None => true,
    }
}

impl Flag {
    /// Executable filter test for one entry.
    pub fn admits(&self, e: &Entry) -> (r: bool)
        ensures
            r == entry_matches(e@, self@),
    {
        let status_ok = match &self.status {
            None => true,
            Some(s) => str_eq(s.as_str(), e.status.as_str()),
        };
        let category_ok = match &self.category {
            None => true,
            Some(c) => str_eq(c.as_str(), e.category.as_str()),
        };
        status_ok && category_ok
    }
}

/// One invocation of the surrounding tool: at most one command.
pub struct Cli {
    pub command: Option<Commands>,
}

/// The commands the tool offers. `New` and `Ls` carry the optional filter
/// flags; the remaining commands pick their entry interactively.
pub enum Commands {
    /// Submit a todo entry.
    New(Flag),
    /// Read all the entries, narrowed by the given flags.
    Ls(Flag),
    /// Edit a specific entry.
    Edit,
    /// Delete a specific entry.
    Delete,
    /// Update the status of an entry.
    Status,
}

} // verus!
