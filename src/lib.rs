//! The task-lifecycle core of a help-desk ticket client that consumes
//! translation and reply tasks from a message queue.
//!
//! - `registry`: the state shared by the consume loop and its handlers:
//!   tasks in flight, recent outcomes, completion slots.
//! - `delivery`: the life of one delivery, from decoding to its single
//!   acknowledgement, and the wait on the external actor.
//! - `consumer`: the queue configuration and the consume loop's decisions.
//! - `payloads`: the JSON bodies sent upstream and to the external actor.
//! - `translation`: the translation engine's prompt and answer.
//! - `models`, `settings`: tickets and settings.
//! - `storage`, `sync`, `export`, `shadow`: local ticket files, syncing from
//!   the help desk, CSV export, and the external actor's window.
//! - `text`: decimal text of integers, and parsing it back.

pub mod consumer;
pub mod delivery;
pub mod export;
pub mod models;
pub mod payloads;
pub mod registry;
pub mod settings;
pub mod shadow;
pub mod storage;
pub mod sync;
pub mod text;
pub mod translation;
