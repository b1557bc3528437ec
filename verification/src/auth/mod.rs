//! Users: sign-in through the identity platform and the stored user records.

pub mod services;
