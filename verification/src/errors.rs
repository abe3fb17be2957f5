//! The two error kinds of the library: failures while reading an IP
//! (from a discovery endpoint or from the provider) and failures while
//! writing one to the provider.  Each carries a human-readable cause.

use vstd::prelude::*;

use crate::text::{dec_str, push_decimal};

verus! {

/// The cause string recorded for an unexpected HTTP status.
pub open spec fn status_cause(code: nat) -> Seq<char> {
    "unexpected HTTP status "@ + dec_str(code)
}

/// The cause string recorded for a provider payload without a readable
/// `ip_address` field.
pub open spec fn malformed_cause() -> Seq<char> {
    "malformed provider payload"@
}

/// A failure to read an IP value: transport trouble, an unexpected
/// HTTP status, or a malformed provider payload.
pub struct FetchError(String);

impl View for FetchError {
    type V = Seq<char>;

    closed spec fn view(&self) -> Seq<char> {
        self.0@
    }
}

impl FetchError {
    /// An error caused by a transport-level failure, described by the
    /// transport's own message.
    pub fn transport(cause: String) -> (e: FetchError)
        ensures
            e@ == cause@,
    {
        FetchError(cause)
    }

    /// An error caused by a non-success HTTP status.
    pub fn status(code: u16) -> (e: FetchError)
        ensures
            e@ == status_cause(code as nat),
    {
        let mut m = String::from_str("unexpected HTTP status ");
        push_decimal(&mut m, code);
        FetchError(m)
    }

    /// An error caused by a provider payload without a readable
    /// `ip_address` field.
    pub fn malformed_payload() -> (e: FetchError)
        ensures
            e@ == malformed_cause(),
    {
        FetchError(String::from_str("malformed provider payload"))
    }

    /// The full error line, prefix plus cause.
    pub fn message(&self) -> (m: String)
        ensures
            m@ == "failed to fetch IP: "@ + self@,
    {
        let mut m = String::from_str("failed to fetch IP: ");
        m.append(self.0.as_str());
        m
    }
}

/// A failure to write a new IP value to the provider.
pub struct UpdateError(String);

impl View for UpdateError {
    type V = Seq<char>;

    closed spec fn view(&self) -> Seq<char> {
        self.0@
    }
}

impl UpdateError {
    /// An error caused by a transport-level failure, described by the
    /// transport's own message.
    pub fn transport(cause: String) -> (e: UpdateError)
        ensures
            e@ == cause@,
    {
        UpdateError(cause)
    }

    /// An error caused by a non-success HTTP status.
    pub fn status(code: u16) -> (e: UpdateError)
        ensures
            e@ == status_cause(code as nat),
    {
        let mut m = String::from_str("unexpected HTTP status ");
        push_decimal(&mut m, code);
        UpdateError(m)
    }

    /// The full error line, prefix plus cause.
    pub fn message(&self) -> (m: String)
        ensures
            m@ == "failed to update recorded IP: "@ + self@,
    {
        let mut m = String::from_str("failed to update recorded IP: ");
        m.append(self.0.as_str());
        m
    }
}

} // verus!
