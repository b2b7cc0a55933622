//! Core of a photo-sharing api: an expiring key-value store, the single-use
//! tokens and the cookie sessions built on it, and the route-level decisions
//! that use them.
//!
//! Every store operation takes `&mut self` and so runs atomically with
//! respect to the others; sharing a store between request tasks and the
//! sweeper means putting it behind a lock.

pub mod cache;
pub mod clock;
pub mod ids;
pub mod password;
pub mod payload;
pub mod result;
pub mod routes;
pub mod session;
pub mod token;
pub mod validation;
