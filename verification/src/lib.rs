//! A typed client library for a versioned JSON-over-HTTPS graph API.
//!
//! The library covers the computational core of one API call: describing a
//! request as a [`graph::Edge`] and serializing it into a wire body,
//! composing the request URL, and interpreting the JSON response body —
//! classifying API-reported errors and decoding a success payload into a
//! typed model such as [`user::User`]. The HTTPS transport itself is left
//! to the caller.

pub mod client;
pub mod error;
pub mod graph;
pub mod json;
pub mod model;
pub mod user;

pub use error::GetModelError;
pub use graph::Edge;
pub use graph::Method;
pub use model::FBModel;
