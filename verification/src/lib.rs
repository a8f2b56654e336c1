//! A blogging-platform core: authentication, identity extraction, and the
//! consistency rules that span records.
//!
//! The token service issues and validates signed, time-bounded identity
//! tokens; the extractor turns an authorization header into an identity, in
//! a required and an optional mode; the credential hasher stores passwords
//! only as one-way hashes. The services enforce the cross-record rules —
//! ownership checks, idempotent follow and favorite edges, a favorites
//! counter that always equals the number of favorite edges, and soft delete
//! with slug recycling — against an in-memory record store whose
//! well-formedness predicate carries those invariants.

pub mod app_error;
pub mod articles;
pub mod config;
pub mod extractor;
pub mod hashing;
pub mod profiles;
pub mod store;
pub mod tags;
pub mod text;
pub mod users;
