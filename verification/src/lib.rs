//! An in-memory metadata index for phone-number territories.
//!
//! Raw, loosely-typed records are validated into fully-populated [`record::Metadata`]
//! values, their textual pattern rules compiled into lazily-built [`pattern::Matcher`]s,
//! and the validated sequence assembled into an immutable [`database::Database`]
//! queryable by territory id, numbering-plan code and region grouping.

pub mod database;
pub mod error;
pub mod pattern;
pub mod raw;
pub mod record;
