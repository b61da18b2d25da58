//! Orchestration and recovery for a show-control node.
//!
//! The crate holds the registry of defined windows, channels and playback
//! records, the rules by which each inbound request changes that registry, the
//! snapshot that is mirrored onto a remote key-value store, and the plan by
//! which a stored snapshot is replayed after a restart.
//!
//! Nothing in here performs I/O. Playback, display and storage are reached by
//! the embedding program, which hands their answers to this crate as plain
//! values and carries out the actions that come back.
//!
//! - [`definitions`]: the data that travels between the parts of the node.
//! - [`system_interface`]: the request dispatcher, the registry with its
//!   mirror, the decisions of the playback driver, and what holds of them
//!   over every run of requests.
//! - [`gtk_interface`]: the display's record of windows and videos.
//! - [`web_interface`]: the paths of the web interface and the status of
//!   its answers.

pub mod definitions;
pub mod gtk_interface;
pub mod system_interface;
mod tables;
pub mod web_interface;
