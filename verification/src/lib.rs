//! Dependency harvesting for interpreter-managed applications.
//!
//! One traced run of an application leaves a log of the files it opened.
//! This library turns such a log into the set of files that lie inside a
//! dependency root, and lays out where each of them goes in a portable
//! output tree. Reading the log, asking the disk and copying files is left
//! to the caller: the library decides, the caller acts.

pub mod capture;
pub mod filter;
pub mod harvest_set;
pub mod harvester;
pub mod layout;
pub mod pattern;
pub mod run;
pub mod text;
