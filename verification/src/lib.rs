//! A dependency-manifest diff engine.
//!
//! Given two snapshots of a parsed dependency manifest (a previous revision
//! and the current state), the library extracts each snapshot's dependency
//! table, resolves every declared version requirement to its minimum
//! satisfying version, and reports which dependencies were removed or had
//! their version floor raised.

pub mod config;
pub mod diff;
pub mod report;
pub mod requirement;
