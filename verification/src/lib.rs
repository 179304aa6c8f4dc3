//! A verified core for a todo-list manager: an entry store over a single
//! table of todo records, with closed status and category vocabularies,
//! validation of raw category input, and conjunctive read filters.

pub mod category;
pub mod cli;
pub mod entry;
pub mod laws;
pub mod status;
pub mod store;
pub mod util;

pub use category::Category;
pub use category::ValidationError;
pub use category::normalize_and_validate;
pub use cli::{Cli, Commands, Flag};
pub use entry::{EditedEntry, Entry, NewEntry};
pub use status::Status;
pub use store::{Store, StoreError};
