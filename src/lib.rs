//! Account onboarding: credential validation, the registration and
//! email-verification protocols, the verification-token lifecycle and the
//! error taxonomy shared by both flows.

pub mod validation;
pub mod errors;
pub mod model;
pub mod password;
pub mod signup;
pub mod verification;
pub mod store;
pub mod laws;
pub mod config;
pub mod responses;
pub mod statements;
