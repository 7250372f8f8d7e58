//! The failures that end a run, each with its own message and exit status.
use vstd::prelude::*;

verus! {

/// A failed calendar query, by the kind of failure the service reported.
#[derive(PartialEq, Eq, Structural, Clone, Copy, Debug)]
pub enum RemoteError {
    HttpError,
    MissingToken,
    RateOrSizeLimit,
    BadRequest,
    DecodeError,
    Cancelled,
    Other,
}

/// What ended a run before a report could be printed.
#[derive(PartialEq, Eq, Structural, Clone, Copy, Debug)]
pub enum Failure {
    /// The token file could not be read or written.
    Storage,
    /// No valid token could be obtained.
    Auth,
    /// The calendar query failed.
    Remote(RemoteError),
}

pub open spec fn failure_text(f: Failure) -> Seq<char> {
    match f {
        Failure::Storage => "Could not read or write the stored token"@,
        Failure::Auth => "Could not sign in to the calendar service"@,
        Failure::Remote(RemoteError::HttpError) => "The calendar service could not be reached"@,
        Failure::Remote(RemoteError::MissingToken) => "The calendar service asked for a sign-in token"@,
        Failure::Remote(RemoteError::RateOrSizeLimit) => "The calendar service refused a request that was too large or too frequent"@,
        Failure::Remote(RemoteError::BadRequest) => "The calendar service rejected the request"@,
        Failure::Remote(RemoteError::DecodeError) => "The calendar service sent a reply that could not be read"@,
        Failure::Remote(RemoteError::Cancelled) => "The calendar query was cancelled"@,
        Failure::Remote(RemoteError::Other) => "The calendar query failed"@,
    }
}

pub open spec fn exit_status(f: Failure) -> i32 {
    match f {
        Failure::Storage => 2,
        Failure::Auth => 3,
        Failure::Remote(RemoteError::HttpError) => 4,
        Failure::Remote(RemoteError::MissingToken) => 5,
        Failure::Remote(RemoteError::RateOrSizeLimit) => 6,
        Failure::Remote(RemoteError::BadRequest) => 7,
        Failure::Remote(RemoteError::DecodeError) => 8,
        Failure::Remote(RemoteError::Cancelled) => 9,
        Failure::Remote(RemoteError::Other) => 10,
    }
}

impl Failure {
    /// The process exit status for this failure.
    pub fn exit_code(&self) -> (r: i32)
        ensures
            r == exit_status(*self),
    {
        match self {
            Failure::Storage => 2,
            Failure::Auth => 3,
            Failure::Remote(RemoteError::HttpError) => 4,
            Failure::Remote(RemoteError::MissingToken) => 5,
            Failure::Remote(RemoteError::RateOrSizeLimit) => 6,
            Failure::Remote(RemoteError::BadRequest) => 7,
            Failure::Remote(RemoteError::DecodeError) => 8,
            Failure::Remote(RemoteError::Cancelled) => 9,
            Failure::Remote(RemoteError::Other) => 10,
        }
    }

    /// The message shown on standard error for this failure.
    pub fn message(&self) -> (r: &'static str)
        ensures
            r@ == failure_text(*self),
    {
        match self {
            Failure::Storage => "Could not read or write the stored token",
            Failure::Auth => "Could not sign in to the calendar service",
            Failure::Remote(RemoteError::HttpError) => "The calendar service could not be reached",
            Failure::Remote(RemoteError::MissingToken) => "The calendar service asked for a sign-in token",
            Failure::Remote(RemoteError::RateOrSizeLimit) => "The calendar service refused a request that was too large or too frequent",
            Failure::Remote(RemoteError::BadRequest) => "The calendar service rejected the request",
            Failure::Remote(RemoteError::DecodeError) => "The calendar service sent a reply that could not be read",
            Failure::Remote(RemoteError::Cancelled) => "The calendar query was cancelled",
            Failure::Remote(RemoteError::Other) => "The calendar query failed",
        }
    }
}

/// Every failure ends the run with a non-zero status, and no two kinds of
/// failure share one.
pub proof fn lemma_exit_status_distinct(a: Failure, b: Failure)
    ensures
        exit_status(a) != 0,
        a != b ==> exit_status(a) != exit_status(b),
{
}

} // verus!
