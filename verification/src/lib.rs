//! Access-time accounting for the entries of a cache.
//!
//! A [`Node`] pairs a value with the instant at which it was last used. The
//! value is used through an [`Access`] guard, and the instant is refreshed
//! from a [`Now`] time source when that guard is dropped, however the scope
//! that held it was left.

pub mod access;
pub mod clock;
pub mod history;

pub use access::Access;
pub use access::Node;
pub use clock::Now;
