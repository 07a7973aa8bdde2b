//! A task registry kept on a ledger. Tasks are created, completed, edited,
//! soft-deleted and handed over by their owners; they are read by id, by
//! owner, or all at once.
//!
//! The registry runs on a [`Host`]: a record store, the ledger clock, and
//! the identities that authorized the invocation. Every operation is proved
//! against [`model::StoreView`], the registry as a mathematical state, and
//! [`laws`] holds what is proved of that state whatever is asked of it.

pub mod contract;
pub mod host;
pub mod laws;
pub mod model;
pub mod store;
pub mod task;

pub use contract::ToDoListContract;
pub use host::Host;
pub use store::RecordStore;
pub use task::{Address, Task, TaskError, TaskStatus};
