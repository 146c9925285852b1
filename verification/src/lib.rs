//! A synced local store of text notes: the note entity, the statements that
//! read and change the notes table, the mapping between rows and notes, and
//! the coordinator that sequences a local write with its propagation to the
//! remote replica.

pub mod title;
pub mod value;
pub mod note;
pub mod error;
pub mod statement;
pub mod event;
pub mod table;
pub mod coordinator;
pub mod session;
pub mod guarantees;
pub mod commands;
