//! The decisions of the triagebot web server: how it routes and answers requests, how it comes up
//! and how it keeps its background jobs alive.
//!
//! Work that reaches outside (the network, the database, the clock) is not done here. The library
//! says which work is to be done, and goes on from its outcome.

pub mod agenda;
pub mod config;
pub mod headers;
pub mod jobs;
pub mod laws;
pub mod query;
pub mod response;
pub mod routes;
pub mod serve;
pub mod startup;
pub mod text;
