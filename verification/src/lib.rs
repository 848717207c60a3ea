//! Record keeping for freelancers, for many owners at once: clients,
//! invoices, contracts, projects, time entries and resumes.
//!
//! Every record belongs to one owner, and the crate is built around one
//! promise: an owner never reads, changes or removes a record of another
//! owner, whatever identifier they present. The promise is kept in four
//! places.
//!
//! * [`password`] and [`handlers::auth`] keep the credentials: an address
//!   is registered once, a password is stored as a salted hash, and a
//!   login is accepted only against that hash.
//! * [`token`] issues and validates the signed bearer tokens that name an
//!   owner for seven days, and [`middleware::auth`] is the gateway that
//!   resolves the owner of a request from its token before any operation
//!   runs.
//! * [`ident`] validates the identifiers that come from outside.
//! * [`repository`] holds the five operations that every kind of record
//!   offers, each of which selects a record by identifier and owner
//!   together; [`handlers`] instantiates them for each kind of record.
//!
//! [`store`] is the document store that the operations rely on, as a
//! collection of records held in memory. A service that keeps its
//! records elsewhere uses the same decisions around its own storage
//! calls: [`repository::scope`], the `changes` of a partial update,
//! [`repository::found_or_missing`] and [`repository::deleted_or_missing`].
//!
//! The time is always an argument, in milliseconds since the start of
//! 1970, and never read from a clock.

pub mod config;
pub mod database;
pub mod error;
pub mod handlers;
pub mod ident;
pub mod middleware;
pub mod models;
pub mod password;
pub mod repository;
pub mod router;
pub mod store;
pub mod token;
pub mod values;
