//! The error taxonomy that drives the supervisor's recovery decisions.
use vstd::prelude::*;
use vstd::string::*;

verus! {

/// Every fault that can end a subscription or a hook invocation.
///
/// `SubscriptionFinished` and `MatrixError` are the two benign kinds; every
/// other variant is a fault that puts the supervisor on hold.
#[derive(Clone, Debug)]
pub enum SkipperError {
    /// An I/O fault, such as a hook script that could not be launched.
    Io(String),
    /// A fault reported by the node client.
    Subxt(String),
    /// Output that is not valid UTF-8.
    Utf8(String),
    /// The notification channel rejected a message.
    MatrixError(String),
    /// The event stream ended without an underlying fault.
    SubscriptionFinished,
    /// Any other fault, described by its message.
    Other(String),
}

/// The text by which an error is reported in logs and notifications.
pub open spec fn error_text(e: SkipperError) -> Seq<char> {
    match e {
        SkipperError::Io(m) => "I/O error: "@ + m@,
        SkipperError::Subxt(m) => "Subxt error: "@ + m@,
        SkipperError::Utf8(m) => "UTF-8 error: "@ + m@,
        SkipperError::MatrixError(m) => "Matrix error: "@ + m@,
        SkipperError::SubscriptionFinished => "Subscription finished"@,
        SkipperError::Other(m) => m@,
    }
}

impl SkipperError {
    /// The text by which this error is reported.
    pub fn message(&self) -> (r: String)
        ensures
            r@ == error_text(*self),
    {
        match self {
            SkipperError::Io(m) => String::from_str("I/O error: ").concat(m.as_str()),
            SkipperError::Subxt(m) => String::from_str("Subxt error: ").concat(m.as_str()),
            SkipperError::Utf8(m) => String::from_str("UTF-8 error: ").concat(m.as_str()),
            SkipperError::MatrixError(m) => String::from_str("Matrix error: ").concat(m.as_str()),
            SkipperError::SubscriptionFinished => String::from_str("Subscription finished"),
            SkipperError::Other(m) => m.clone(),
        }
    }
}

} // verus!
