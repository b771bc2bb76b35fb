//! The progress database's records, and the decisions around its queries:
//! which statements are read-only, how results are shown, and which
//! errors mean a corrupt file. The SQLite calls themselves happen outside.

pub mod models;
pub mod query;
