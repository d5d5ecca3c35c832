//! Backup consolidation and namespace-routed restoration.
//!
//! The library captures independently produced backup artifacts (package
//! lists, directory trees, key directories) as in-memory values, consolidates
//! them into one namespaced archive container, optionally seals the container
//! with authenticated encryption, and reverses the process on restore:
//! opening (and, when asked, decrypting) a consolidated container, classifying
//! every entry by its namespace tag, and routing it either to an in-memory
//! line list or to a destination directory, expanding nested containers on
//! the way.
//!
//! All filesystem reads and writes, process invocations and signal handling
//! stay outside the library; it works on plain values handed in by its
//! caller.

pub mod errors;
pub mod namespace;
pub mod container;
pub mod archive;
pub mod crypto;
pub mod naming;
pub mod consolidate;
pub mod restore;
pub mod cli;
pub mod backup;
