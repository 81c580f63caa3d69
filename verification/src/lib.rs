//! The two cores of a social-graph backend.
//!
//! The **relationship ledger** records likes, shares and follows as edges
//! and keeps the counters of posts and users in step with them:
//!
//! - `ledger` holds the operations, each a transaction that tells its driver
//!   which command the store is to run next;
//! - `store` is a model of the store, with the laws of one operation at a
//!   time;
//! - `concurrency` lets several clients take turns, with the laws that hold
//!   of every interleaving;
//! - `handlers` decides what the request layer answers to each outcome,
//!   with `text` to look into the store's own words.
//!
//! The **credential and token service** hashes passwords and issues and
//! validates signed, expiring identity tokens:
//!
//! - `auth` holds the service and its laws, with the rules for login and
//!   registration requests, `claims` what a token asserts;
//! - `backend` holds the calls into the cryptographic, validation and time
//!   libraries, which are trusted, not proved;
//! - `decimal` reads an integer setting.

pub mod auth;
pub mod backend;
pub mod claims;
pub mod concurrency;
pub mod decimal;
pub mod handlers;
pub mod ledger;
pub mod store;
pub mod text;
