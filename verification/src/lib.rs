//! An in-memory collection of user records with create, list and replace
//! operations, the decision logic of the three HTTP handlers that expose
//! them, and proofs of the properties the service promises.

pub mod handlers;
pub mod laws;
pub mod store;
pub mod user;
