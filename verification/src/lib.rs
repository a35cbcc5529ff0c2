//! Build-orchestration core of a monorepo-aware TypeScript build tool:
//! workspace discovery, project-configuration resolution across
//! `extends` chains (including chains that point into another workspace
//! package), include/exclude file selection, compile planning,
//! dependency bundling and watch-event filtering.
//!
//! Paths and file contents are plain byte strings throughout, and the
//! filesystem slice a build reads is handed in as an explicit snapshot
//! (`store::FsModel`), so every decision the tool makes is a function
//! of values it was given and carries an exact contract. Reading and
//! writing the real filesystem, invoking the external compile engine
//! and supervising child processes stay outside the library.
pub mod bundle;
pub mod bytes;
pub mod compile;
pub mod convert;
pub mod jsonio;
pub mod parse;
pub mod pathing;
pub mod options;
pub mod registry;
pub mod resolver;
pub mod selector;
pub mod sourcemap;
pub mod store;
pub mod watch;
pub mod words;
