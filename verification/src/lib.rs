//! A small client library for the AppVeyor REST API.
//!
//! The library covers three operations: listing the projects of an account,
//! adding a project, and deleting a project. Every operation returns a typed
//! result: its success value, or one value of a closed error taxonomy. The
//! request pipeline — build the request, dispatch it, classify the status
//! code, decode the body — is specified and verified; the HTTP exchange and
//! the JSON parser are called through trusted items.

pub mod classify;
pub mod client;
pub mod codec;
pub mod error;
pub mod json;
mod transport;

pub use classify::classify;
pub use classify::create_outcome;
pub use classify::delete_outcome;
pub use classify::list_outcome;
pub use client::AppVeyor;
pub use codec::AddProject;
pub use codec::ErrorResponse;
pub use codec::Project;
pub use error::Error;
