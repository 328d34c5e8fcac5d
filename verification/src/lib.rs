//! A minimal todo service, verified.
//!
//! The library holds everything the service decides: the data model and its
//! invariants (`models`, `store`), the closed error taxonomy and its mapping
//! to HTTP statuses (`errors`), the shared-secret key check (`auth`), and the
//! per-route decision logic (`routes`). General laws relating these pieces
//! are stated and proved in `laws`. The HTTP listener and the SQL driver
//! live outside the library and only hand it plain values.

pub mod auth;
pub mod errors;
pub mod laws;
pub mod models;
pub mod routes;
pub mod store;
