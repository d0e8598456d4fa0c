//! A tiny pluggable build-orchestration core.
//!
//! The crate drives a set of source files through a user-supplied compile
//! step, collects the intermediate artifacts, optionally links them into one
//! product, and reports the file-level dependencies that each compile step
//! discovered, so the host build tool can decide when a rebuild is needed.

pub mod build_settings;
pub mod build_system;
pub mod compile_settings;
pub mod compile_system;
pub mod dependency_parser;
pub mod errors;
pub mod fs_model;
pub mod paths;
pub mod traits;

pub use build_settings::{BuildEnv, BuildSettings, BuildSettingsBuilder, Configuration, PathType};
pub use build_system::{BuildReport, BuildSystem};
pub use compile_settings::{CompileSettings, CompileSettingsBuilder, SourceFileStrategy};
pub use compile_system::{CompileReport, CompileSystem};
pub use errors::BuildError;
pub use fs_model::{FsDirEntry, FsTree};
pub use traits::{suggest_intermediate_file, CompileOutcome, CompileStep, LinkStep};
