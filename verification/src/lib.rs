//! Core of a desktop application launcher: scans platform-specific
//! application locations, resolves icons, and produces one canonical,
//! searchable record type.
//!
//! The surrounding program does the filesystem walking and hands the
//! results in as plain values; everything that decides, parses or
//! normalizes lives here.

pub mod builder;
pub mod desktop;
pub mod entry;
pub mod icon;
pub mod resolver;
pub mod scanner;
pub mod text;
