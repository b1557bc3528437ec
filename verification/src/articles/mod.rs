//! Articles: what is stored of them and what the service answers about them.

pub mod models;
pub mod services;
