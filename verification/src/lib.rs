//! Core of a multi-tenant school/subscription management backend.
//!
//! The crate models the request-handling and data-access pattern shared by
//! all entities of the service: repositories over an in-memory row store,
//! usecases that validate input and orchestrate repository calls, and the
//! pure decision logic of the two authentication gates.  The relational
//! database engine, the HTTP server, the object store and the external
//! geographic-data API are collaborators that live outside this crate; the
//! thin shell around it performs that I/O and hands plain values in and out.

pub mod auth;
pub mod city;
pub mod errors;
pub mod middleware;
pub mod pagination;
pub mod providers;
pub mod province;
pub mod role;
pub mod school;
pub mod store;
pub mod subscription;
pub mod subscription_type;
pub mod text;
pub mod user;
