//! Verified core of the SDKWork catalog app API.
//!
//! The catalog surface is read-only: buyers list and open categories,
//! attributes, products and SKUs. This crate holds the parts of that surface
//! that are decisions rather than plumbing:
//!
//! - [`endpoint`]: the seven read endpoints, their paths, operation ids and
//!   the messages they answer with;
//! - [`manifest`]: the gateway route manifest (which paths the gateway
//!   authorizes, and how);
//! - [`router`]: the route table that the HTTP router mounts;
//! - [`query`]: how a request and the caller's subject become a store query;
//! - [`reply`]: how a failed authentication, a rejected query or a store
//!   answer becomes a reply;
//! - [`assembly`]: the assembly's identity, its database requirement and the
//!   standalone gateway's bind address;
//! - [`laws`]: properties that relate the functions above.

pub mod assembly;
pub mod endpoint;
pub mod laws;
pub mod manifest;
pub mod query;
pub mod reply;
pub mod router;
