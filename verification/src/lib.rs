//! A typed client for the GitHub REST API.
//!
//! The crate builds authenticated requests, hands them to a transport, sorts
//! the answer by its HTTP status and turns the JSON body into a typed record
//! or into a structured error.
use crate::error::ClientError;
use vstd::prelude::*;

pub mod client;
pub mod error;
pub mod json;
pub mod rate_limits;
pub mod record;
pub mod repo;
pub mod transport;
pub mod user;

verus! {

/// A trait for structures that send a GET request
pub trait GetterAPI {
    /// The record that the resource is read as.
    type GetType;

    /// Asks for the resource and reads the answer.
    fn get(&self) -> Result<Self::GetType, ClientError>;
}

/// A trait for structures that send a PATCH request
pub trait UpdaterAPI {
    /// The record that holds the changes.
    type PatchType;

    /// Sends the changes and returns the server's answer as text.
    fn patch(&self, new_infos: &Self::PatchType) -> Result<String, ClientError>;
}

} // verus!
