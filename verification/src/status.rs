//! The closed vocabulary of entry statuses.

use vstd::prelude::*;
use crate::util::str_eq;

verus! {

/// The status of a todo entry. The vocabulary is closed: a persisted entry
/// carries exactly one of these three values.
#[derive(Clone, Copy, Debug, PartialEq, Eq, Structural)]
pub enum Status {
    Abandoned,
    Active,
    Done,
}

impl Default for Status {
    /// A fresh entry is `Active` until its status is explicitly changed.
    fn default() -> (r: Self)
        ensures
            r == Status::Active,
    {
        Status::Active
    }
}

/// The text under which a status is persisted.
pub open spec fn status_name(s: Status) -> Seq<char> {
    match s {
        Status::Abandoned => "Abandoned"@,
        Status::Active => "Active"@,
        Status::Done => "Done"@,
    }
}

impl Status {
    /// The persisted text form of this status.
    pub fn as_str(&self) -> (r: &'static str)
        ensures
            r@ == status_name(*self),
    {
        match self {
            Status::Abandoned => "Abandoned",
            Status::Active => "Active",
            Status::Done => "Done",
        }
    }

    /// The status persisted under exactly the given text, if any; the
    /// inverse of `as_str` at the persistence boundary.
    pub fn from_name(s: &str) -> (r: Option<Status>)
        ensures
            match r {
                Some(st) => status_name(st) == s@,
                None => forall|st: Status| status_name(st) != s@,
            },
    {
        if str_eq(s, "Abandoned") {
            Some(Status::Abandoned)
        } else if str_eq(s, "Active") {
            Some(Status::Active)
        } else if str_eq(s, "Done") {
            Some(Status::Done)
        } else {
            None
        }
    }

    /// The status offered at the given position of the selection menu that
    /// lists the vocabulary: `Abandoned`, `Active`, `Done`.
    pub fn from_index(i: usize) -> (r: Option<Status>)
        ensures
            r == (if i == 0 {
                Some(Status::Abandoned)
            } else if i == 1 {
                Some(Status::Active)
            } else if i == 2 {
                Some(Status::Done)
            } else {
                None::<Status>
            }),
    {
        if i == 0 {
            Some(Status::Abandoned)
        } else if i == 1 {
            Some(Status::Active)
        } else if i == 2 {
            Some(Status::Done)
        } else {
            None
        }
    }
}

} // verus!
