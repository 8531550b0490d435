//! Classification of debounced filesystem notifications.
//!
//! A watcher reports, once per debounce window, a batch of raw events
//! ("something changed at these paths"). This library reduces such a batch
//! to one semantic event: a file was created, modified, deleted, renamed
//! inside its directory, or moved to another directory.

pub mod classify;
pub mod fs_event;
pub mod laws;
pub mod paths;
pub mod raw_event;
