//! Request serving for a Kodi addon repository.
//!
//! - [`index`]: the set of addon identifiers that a listing declares.
//! - [`manifest`]: reading that set out of the listing's XML, and writing a listing.
//! - [`cache`]: per-key coordination of archive builds, so that at most one
//!   build of an addon runs at a time and its outcome reaches every waiter.
//! - [`negotiate`]: whether an already produced body is sent compressed.
//! - [`router`]: the answers to `GET /addons/{id}` and `GET /addons/{id}/archive`.
use vstd::prelude::*;

pub mod cache;
pub mod index;
pub mod manifest;
pub mod negotiate;
pub mod router;

verus! {

} // verus!
