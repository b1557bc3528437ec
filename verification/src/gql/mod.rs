//! The GraphQL mutations' own decisions.

pub mod mutations;
