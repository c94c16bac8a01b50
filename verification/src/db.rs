//! The records that archival hands to storage.

pub mod archives;
