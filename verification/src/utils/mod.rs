//! The decisions of a run: sweeps, the remote store, and the two batches.

pub mod arguments;
pub mod clock;
pub mod failure;
pub mod fs_utils;
pub mod process_backup;
pub mod process_restore;
pub mod s3_utils;
pub mod shell;
pub mod text;
