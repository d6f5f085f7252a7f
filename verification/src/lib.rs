//! Access control and operations of the replicated log of a distributed database.
//!
//! - [`access_control`]: whether a user may have an operation done, decided over the answers
//!   collected in a [`transcript`]; [`role_graph`] tells who holds a role, [`access_laws`]
//!   states what holds of the checks as a whole, and [`verdict_laws`] who may do what.
//! - [`traft`]: the operations of the log with their texts and constructors, and the errors.
//! - [`tuple`] and [`json`]: serialized tuples, and how they are shown.
//! - [`schema`]: what operations and checks speak of.
//! - [`helpers`]: queries taken through the stages of a query engine.
pub mod access_control;
pub mod access_laws;
pub mod helpers;
pub mod json;
pub mod role_graph;
pub mod schema;
pub mod text;
pub mod traft;
pub mod transcript;
pub mod tuple;
pub mod verdict_laws;
