//! The verified core of a small GraphQL article and user service.
//!
//! The service stores articles and users in MongoDB and signs users in
//! through Microsoft's identity platform. This crate holds the decisions
//! that the service makes around that I/O: which ids are accepted, what a
//! document to store looks like, which update a mutation sends, and which
//! answer or error a request gets for each outcome of the outside work.

pub mod articles;
pub mod auth;
pub mod encoding;
pub mod error;
pub mod gql;
pub mod http;
pub mod object_id;

pub use error::ApiError;
pub use object_id::ObjectId;
