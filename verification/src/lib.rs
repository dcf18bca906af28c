//! A source-based package manager: it resolves the dependencies of one
//! package through the host's package manager, resolves where the source
//! comes from, sequences the build steps, and removes build-only
//! dependencies when the build is over.

pub mod build_dependency_guard;
pub mod build_handler;
pub mod dependency_handler;
pub mod manager;
pub mod mock;
pub mod package;
pub mod package_tracker;
pub mod text;
pub mod source_handler;
pub mod structured_version;
pub mod version;
