//! Discovery of Git working trees under a root directory, and the decisions
//! of the batch operations (info, clean, pull) run over them through the
//! `git` command-line program.
//!
//! Everything here is pure: listing directories and running `git` is left to
//! the caller, which hands the library plain values and gets plain values back.
pub mod text;
pub mod locate;
pub mod git;
pub mod report;
pub mod batch;
