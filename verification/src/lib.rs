//! Backup and restore of databases and directories into an object store,
//! with a sweep of outdated backups on either side.
//!
//! The library decides and the caller acts. It builds the commands that dump
//! or load a data source, picks the files and objects that a sweep deletes,
//! finds the latest backup of a listing, and steps a batch of elements
//! through its stages, one event at a time. The caller runs the commands and
//! talks to the file system and the store. Verus proves the contracts of the
//! library; the few calls into chrono stand behind wrappers whose contracts
//! are taken on trust.

pub mod structures;
pub mod utils;
