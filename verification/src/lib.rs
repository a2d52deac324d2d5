//! A personal catalog of TV shows: the watch-status cycle, the record shapes,
//! the rules of the show and season tables, the start-up reconciliation of the
//! in-memory snapshot, the decisions around the remote detail service and its
//! rate limiter, and the state and the texts of the interactive front end.

pub mod api;
pub mod client;
pub mod interface;
pub mod limiter;
pub mod models;
pub mod sources;
pub mod status;
pub mod store;
pub mod store_laws;
pub mod texts;
