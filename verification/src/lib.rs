//! Client-side core for a cloud voice-assistant speaker: the decoder for the
//! polymorphic answer payloads that come back with conversation history, and
//! a memoizing resolver that derives the target device of one invocation.
//!
//! The decoder works on [`json::JsonValue`], this crate's own model of a JSON
//! tree, so that every rule about discriminants, required fields and
//! round-tripping is stated and proved here; turning wire bytes into that
//! model is left to the surrounding program.
use vstd::prelude::*;

pub mod casefold;
pub mod conversation;
pub mod json;
pub mod resolver;
pub mod xiaoai;

verus! {

/// Why an operation of this crate failed.
#[derive(Debug, PartialEq, Eq)]
pub enum Error {
    /// An answer object had no readable discriminant, or a known discriminant
    /// without the sibling fields its shape requires.
    MalformedAnswer,
    /// The credential file could not be read at all.
    CredentialsMissing { path: String },
    /// The credential file was read but held no usable session.
    CredentialsInvalid { path: String },
    /// The device list could not be fetched from the remote service.
    DeviceFetchFailed { detail: String },
    /// The account has no bound device.
    NoDevicesBound,
    /// The user cancelled an interactive prompt.
    InputCancelled,
}

impl Error {
    /// An equal copy of this error.
    pub fn duplicate(&self) -> (r: Error)
        ensures
            r == *self,
    {
        match self {
            Error::MalformedAnswer => Error::MalformedAnswer,
            Error::CredentialsMissing { path } => Error::CredentialsMissing { path: path.clone() },
            Error::CredentialsInvalid { path } => Error::CredentialsInvalid { path: path.clone() },
            Error::DeviceFetchFailed { detail } => Error::DeviceFetchFailed {
                detail: detail.clone(),
            },
            Error::NoDevicesBound => Error::NoDevicesBound,
            Error::InputCancelled => Error::InputCancelled,
        }
    }
}

} // verus!
