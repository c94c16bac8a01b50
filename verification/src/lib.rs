//! Archival of bookmarked web pages: which addresses a fetch may reach, which
//! responses it accepts, how a page becomes a stored article, and in what order
//! queued bookmarks are worked through.

pub mod archive;
pub mod db;
