//! Errors of the Spotify Web API client.

use vstd::prelude::*;

use crate::strs::push_str;

verus! {

/// Why a Web API request failed.
#[derive(Debug)]
pub enum ApiError {
    /// No usable token: the user has to sign in.
    NotAuthenticated(String),
    /// The request could not be sent, or the server refused it.
    Request(String),
}

/// The text of an error, as the interface shows it.
pub open spec fn api_error_text(e: ApiError) -> Seq<char> {
    match e {
        ApiError::NotAuthenticated(m) => "not authenticated: "@ + m@,
        ApiError::Request(m) => "request failed: "@ + m@,
    }
}

impl ApiError {
    /// The text of this error.
    pub fn message(&self) -> (r: String)
        ensures
            r@ == api_error_text(*self),
    {
        let mut out = String::new();
        match self {
            ApiError::NotAuthenticated(m) => {
                push_str(&mut out, "not authenticated: ");
                push_str(&mut out, m.as_str());
            },
            ApiError::Request(m) => {
                push_str(&mut out, "request failed: ");
                push_str(&mut out, m.as_str());
            },
        }
        out
    }

    /// Whether this error asks the user to sign in again.
    pub fn is_not_auth(&self) -> (r: bool)
        ensures
            r == (*self is NotAuthenticated),
    {
        match self {
            ApiError::NotAuthenticated(_) => true,
            ApiError::Request(_) => false,
        }
    }
}

/// Whether `err` asks the user to sign in again.
pub fn is_not_auth(err: &ApiError) -> (r: bool)
    ensures
        r == (*err is NotAuthenticated),
{
    err.is_not_auth()
}

} // verus!
