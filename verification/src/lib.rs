//! A small task tracker: a collection of labelled tasks, each either still
//! to be done or completed, together with the JSON form in which it is kept
//! between runs.
//!
//! The collection itself is [`TaskStore`]; [`TaskManager`], [`Todo`] and
//! [`Journal`] are three front ends to it. Each of them views as the mapping
//! from labels to statuses, and every operation says in its contract what it
//! makes of that mapping. A status is a boolean: `true` for a task that is
//! still to be done, `false` for a completed one.
//!
//! The library touches no file. To open a collection it takes the content
//! of the backing file, to save one it gives the content back; reading and
//! writing JSON is left to `serde_json`, whose results the contracts name
//! but do not describe.

pub mod error;
pub mod journal;
pub mod json;
pub mod laws;
pub mod model;
pub mod outside;
pub mod store;
pub mod task_manager;
pub mod text;
pub mod todo;

pub use error::StoreError;
pub use journal::Journal;
pub use store::TaskStore;
pub use task_manager::TaskManager;
pub use todo::Todo;
