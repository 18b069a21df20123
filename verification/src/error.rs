//! The error taxonomy every adapter operation reports through.
//!
//! Each variant carries enough plain context (identifiers, heights, the raw
//! underlying message) for the caller to log or retry; no failure is
//! silently downgraded.

use vstd::prelude::*;

verus! {

/// Why an adapter call failed.
#[derive(Debug)]
pub enum Error {
    /// A network or RPC failure, with the transport's own message.
    TransportFailure { detail: String },
    /// A height that cannot scope a call: zero, or one whose previous
    /// height would underflow.
    InvalidHeight,
    /// A state-proof endpoint answered with an unusable proof — no
    /// storage-proof element at all — for this commitment path.
    MalformedProof { path: String },
    /// The target block's finality proof did not validate against the
    /// validator set.  Fatal for the call; the context is kept for offline
    /// diagnosis.
    FinalityVerificationFailure { block_number: u64, detail: String },
    /// Absence that is semantically valid (for instance, a packet
    /// commitment that does not exist).
    NotFound,
    /// A message type tag the dispatcher has no ledger call for.
    UnsupportedMessageType { type_url: String },
    /// A client-settings variant this chain cannot satisfy.
    UnsupportedClientSettings,
    /// After a successful submission, no log matched the expected event
    /// kind.
    EventNotFound,
    /// After a successful submission, more than one log matched the
    /// expected event kind.
    AmbiguousEvent,
    /// The submitted transaction has no block number yet.
    StillPending,
    /// The transaction builder's lookup context is inconsistent with the
    /// identifiers the message references.
    StaleContext,
    /// The ledger rejected a submission; the decoded revert reason is kept
    /// when the ledger supplied one.
    SubmissionFailure { detail: String },
    /// A denom-trace lookup answered with an empty path.
    EmptyDenomTrace { hash: String },
    /// A value taken from the ledger could not be decoded into a protocol
    /// object.
    Decode { detail: String },
}

impl Clone for Error {
    /// An equal copy.
    fn clone(&self) -> (res: Self)
        ensures
            res == *self,
    {
        match self {
            Error::TransportFailure { detail } => (Error::TransportFailure {
                detail: detail.clone(),
            }),
            Error::InvalidHeight => Error::InvalidHeight,
            Error::MalformedProof { path } => (Error::MalformedProof { path: path.clone() }),
            Error::FinalityVerificationFailure { block_number, detail } => (
            Error::FinalityVerificationFailure {
                block_number: *block_number,
                detail: detail.clone(),
            }),
            Error::NotFound => Error::NotFound,
            Error::UnsupportedMessageType { type_url } => (Error::UnsupportedMessageType {
                type_url: type_url.clone(),
            }),
            Error::UnsupportedClientSettings => Error::UnsupportedClientSettings,
            Error::EventNotFound => Error::EventNotFound,
            Error::AmbiguousEvent => Error::AmbiguousEvent,
            Error::StillPending => Error::StillPending,
            Error::StaleContext => Error::StaleContext,
            Error::SubmissionFailure { detail } => (Error::SubmissionFailure {
                detail: detail.clone(),
            }),
            Error::EmptyDenomTrace { hash } => (Error::EmptyDenomTrace { hash: hash.clone() }),
            Error::Decode { detail } => (Error::Decode { detail: detail.clone() }),
        }
    }
}

impl Error {
    /// A short label naming the variant, for logs.
    pub fn label(&self) -> (r: &'static str)
        ensures
            (*self is TransportFailure) ==> r@ == "transport failure"@,
            (*self is InvalidHeight) ==> r@ == "invalid height"@,
            (*self is MalformedProof) ==> r@ == "malformed proof"@,
            (*self is FinalityVerificationFailure) ==> r@ == "finality verification failure"@,
            (*self is NotFound) ==> r@ == "not found"@,
            (*self is UnsupportedMessageType) ==> r@ == "unsupported message type"@,
            (*self is UnsupportedClientSettings) ==> r@ == "unsupported client settings"@,
            (*self is EventNotFound) ==> r@ == "event not found"@,
            (*self is AmbiguousEvent) ==> r@ == "ambiguous event"@,
            (*self is StillPending) ==> r@ == "still pending"@,
            (*self is StaleContext) ==> r@ == "stale context"@,
            (*self is SubmissionFailure) ==> r@ == "submission failure"@,
            (*self is EmptyDenomTrace) ==> r@ == "empty denom trace"@,
            (*self is Decode) ==> r@ == "decode failure"@,
    {
        match self {
            Error::TransportFailure { .. } => "transport failure",
            Error::InvalidHeight => "invalid height",
            Error::MalformedProof { .. } => "malformed proof",
            Error::FinalityVerificationFailure { .. } => "finality verification failure",
            Error::NotFound => "not found",
            Error::UnsupportedMessageType { .. } => "unsupported message type",
            Error::UnsupportedClientSettings => "unsupported client settings",
            Error::EventNotFound => "event not found",
            Error::AmbiguousEvent => "ambiguous event",
            Error::StillPending => "still pending",
            Error::StaleContext => "stale context",
            Error::SubmissionFailure { .. } => "submission failure",
            Error::EmptyDenomTrace { .. } => "empty denom trace",
            Error::Decode { .. } => "decode failure",
        }
    }
}

} // verus!
