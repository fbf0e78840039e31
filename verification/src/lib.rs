//! Transaction core of a package manager client: turns the package actions a
//! caller asks for into a dependency-complete, contradiction-free plan, and
//! runs that plan against a package store one event at a time.

pub mod config;
pub mod package_key;
pub mod package_store;
pub mod repo;
pub mod text;
pub mod transaction;

pub use package_key::PackageKey;
pub use package_store::{InstallTarget, PackageStore};
