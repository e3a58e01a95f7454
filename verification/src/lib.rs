//! Ignore-rule matching engine for incoming issue reports.
//!
//! A fact file holds lines of the form `dimension:pattern`, where the
//! dimension is one of `author`, `label` or `title`. The parser turns such
//! lines into a fact table; the matcher decides whether a given issue
//! attribute matches any pattern of a dimension, and whether an issue as a
//! whole should be ignored.

pub mod facts;
pub mod ignore_file;
pub mod issue;
pub mod laws;
pub mod matcher;
pub mod pattern;
pub mod probe;
pub mod report;
pub mod text;
