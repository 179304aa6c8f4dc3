//! The closed vocabulary of entry categories, and the validation of raw
//! category input at entry-creation time.

use vstd::prelude::*;
use crate::util::{eq_ignore_case, lower_seq, str_eq};

verus! {

/// The category of a todo entry. The vocabulary is closed: `Fun`, `Personal`
/// and `Work` can be asked for by name; `Other` is the default when no
/// category is given.
#[derive(Clone, Copy, Debug, PartialEq, Eq, Structural)]
pub enum Category {
    Fun,
    Personal,
    Work,
    Other,
}

impl Default for Category {
    /// An entry created without a category is filed under `Other`.
    fn default() -> (r: Self)
        ensures
            r == Category::Other,
    {
        Category::Other
    }
}

/// Raw category input that names none of the categories open to the user.
#[derive(Clone, Copy, Debug, PartialEq, Eq, Structural)]
pub enum ValidationError {
    UnknownCategory,
}

/// The text under which a category is persisted.
pub open spec fn category_name(c: Category) -> Seq<char> {
    match c {
        Category::Fun => "Fun"@,
        Category::Personal => "Personal"@,
        Category::Work => "Work"@,
        Category::Other => "Other"@,
    }
}

/// The category that raw input names, up to ASCII case. `Other` cannot be
/// asked for by name: absent input is the only way to it.
pub open spec fn spec_category_of(s: Seq<char>) -> Option<Category> {
    if lower_seq(s) == "fun"@ {
        Some(Category::Fun)
    } else if lower_seq(s) == "personal"@ {
        Some(Category::Personal)
    } else if lower_seq(s) == "work"@ {
        Some(Category::Work)
    } else {
        None
    }
}

/// What `normalize_and_validate` returns for each raw input.
pub open spec fn spec_normalize(raw: Option<Seq<char>>) -> Result<Category, ValidationError> {
    match raw {
        None => Ok(Category::Other),
        Some(s) => match spec_category_of(s) {
            Some(c) => Ok(c),
            None => Err(ValidationError::UnknownCategory),
        },
    }
}

/// Case-normalises raw category input and checks it against the vocabulary:
/// `Fun`, `Personal` and `Work` are accepted in any ASCII case, absent input
/// defaults to `Other`, and anything else is rejected.
pub fn normalize_and_validate(raw: Option<String>) -> (r: Result<Category, ValidationError>)
    ensures
        r == spec_normalize(raw.deep_view()),
{
    match &raw {
        None => Ok(Category::Other),
        Some(s) => {
            proof {
                reveal_strlit("fun");
                reveal_strlit("personal");
                reveal_strlit("work");
                assert(lower_seq("fun"@) =~= "fun"@);
                assert(lower_seq("personal"@) =~= "personal"@);
                assert(lower_seq("work"@) =~= "work"@);
            }
            if eq_ignore_case(s.as_str(), "fun") {
                Ok(Category::Fun)
            } else if eq_ignore_case(s.as_str(), "personal") {
                Ok(Category::Personal)
            } else if eq_ignore_case(s.as_str(), "work") {
                Ok(Category::Work)
            } else {
                Err(ValidationError::UnknownCategory)
            }
        },
    }
}

impl Category {
    /// The persisted text form of this category.
    pub fn as_str(&self) -> (r: &'static str)
        ensures
            r@ == category_name(*self),
    {
        match self {
            Category::Fun => "Fun",
            Category::Personal => "Personal",
            Category::Work => "Work",
            Category::Other => "Other",
        }
    }

    /// The category persisted under exactly the given text, if any; the
    /// inverse of `as_str` at the persistence boundary.
    pub fn from_name(s: &str) -> (r: Option<Category>)
        ensures
            match r {
                Some(c) => category_name(c) == s@,
                None => forall|c: Category| category_name(c) != s@,
            },
    {
        if str_eq(s, "Fun") {
            Some(Category::Fun)
        } else if str_eq(s, "Personal") {
            Some(Category::Personal)
        } else if str_eq(s, "Work") {
            Some(Category::Work)
        } else if str_eq(s, "Other") {
            Some(Category::Other)
        } else {
            None
        }
    }

    /// The category offered at the given position of the selection menu that
    /// lists the categories open to the user: `Fun`, `Personal`, `Work`.
    pub fn from_index(i: usize) -> (r: Option<Category>)
        ensures
            r == (if i == 0 {
                Some(Category::Fun)
            } else if i == 1 {
                Some(Category::Personal)
            } else if i == 2 {
                Some(Category::Work)
            } else {
                None::<Category>
            }),
    {
        if i == 0 {
            Some(Category::Fun)
        } else if i == 1 {
            Some(Category::Personal)
        } else if i == 2 {
            Some(Category::Work)
        } else {
            None
        }
    }
}

} // verus!
