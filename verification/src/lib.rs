//! Workspace discovery and membership resolution for adding a dependency as a
//! dynamically linked wrapper package.
//!
//! The library decides; it performs no input or output. Directories are given
//! as component sequences, manifest files as the text that was read from them.

pub mod locate;
pub mod manifest;
pub mod opts;
pub mod package;
pub mod path;
pub mod strings;
pub mod toml;
pub mod tree;
pub mod workspace;

pub use locate::{turn, LocateError, Lookup, Probe, Progress, Search, Turn};
pub use manifest::{Declared, ManifestDocument, MANIFEST_FILE};
pub use opts::{Arguments, Opts};
pub use package::{exit_code, run, Action, DylibWrapperPackage, TargetPackage};
pub use path::DirPath;
pub use workspace::Workspace;
