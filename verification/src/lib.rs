//! Validation of a user-supplied target file path.
//!
//! The library resolves a candidate path to absolute form, rejects a path
//! that denotes an existing directory, and, when the parent directory of
//! the target is missing, asks for confirmation before the parent chain is
//! created.  All decisions are made here, as a verified state machine over
//! plain values; an unverified driver performs the filesystem probes, the
//! console prompt and the directory creation, and feeds the outcomes back
//! in as events.

pub mod filesystem;
pub mod prompt;
