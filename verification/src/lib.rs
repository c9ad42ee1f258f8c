//! Bookkeeping for files staged into a private scratch directory.
//!
//! The crate decides *what* is copied *where* and remembers every copy so
//! that it can be deleted again. It never touches the file system itself:
//! [`registry::StagingRegistry::stage`] hands out the copies to perform and
//! [`registry::StagingRegistry::clear`] the files to remove, and both change
//! the registry at once, whether or not the caller's file operations succeed
//! afterwards.
//!
//! Every mutating method takes `&mut self`. A caller that shares one registry
//! between threads keeps it behind a lock and holds that lock across the file
//! operations of a call, so that no clear runs between a staging call's
//! bookkeeping and its copies.

pub mod paths;
pub mod registry;
pub mod size;
