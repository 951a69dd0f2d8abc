//! Verified core of a school administration backend: the session layer
//! (password checks, signed session tokens, the session cookie), the error
//! taxonomy with its wire envelope, pagination bounds, the translation of
//! store failures into domain errors, and the two-step teacher write.
pub mod auth;
pub mod credentials;
pub mod decimal;
pub mod error;
pub mod extract;
pub mod marks;
pub mod models;
pub mod pagination;
pub mod store;
pub mod teachers;
pub mod token;
