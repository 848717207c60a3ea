//! The operations of the service, one module for each kind of record.

pub mod auth;
pub mod clients;
pub mod contracts;
pub mod invoices;
pub mod projects;
pub mod resumes;
pub mod time_tracking;
