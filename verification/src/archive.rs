//! The archival subsystem, leaf first: addresses and the networks that are
//! blocked, the resolver that filters by them, the rules of a fetch, the
//! extraction of an article, and the queue that orders the work.

pub mod address;
pub mod text;
pub mod views;
pub mod error;
pub mod ip_net;
pub mod safe_dns_resolver;
pub mod blocked_ranges;
pub mod fetch_url;
pub mod fetch_laws;
pub mod readability;
pub mod queue;
pub mod queue_laws;

pub use error::FetchError;
pub use fetch_url::fetch_step;
pub use queue::ArchiveQueue;
pub use readability::make_readable;
pub use safe_dns_resolver::SafeDnsResolver;
