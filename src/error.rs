use vstd::prelude::*;

verus! {

/// The public IPv4 address could not be determined.
#[derive(Clone, Copy, Debug, PartialEq, Eq, Structural)]
pub struct NoIPV4;

impl NoIPV4 {
    /// A sentence saying what went wrong.
    pub fn message(&self) -> (r: String)
        ensures
            r@ == "cannot fetch public IPv4 address"@,
    {
        String::from_str("cannot fetch public IPv4 address")
    }
}

/// The service that reports the public IPv4 address gave no answer.
#[derive(Clone, Copy, Debug, PartialEq, Eq, Structural)]
pub struct PublicIPError;

impl PublicIPError {
    /// A sentence saying what went wrong.
    pub fn message(&self) -> (r: String)
        ensures
            r@ == "failed to determine public IPv4 address"@,
    {
        String::from_str("failed to determine public IPv4 address")
    }
}

} // verus!

verus! {

/// A record update that the provider refused or that did not complete.
#[derive(Clone, Debug)]
pub struct UpdateFailure {
    /// Name of the record.
    pub record: String,
    /// What went wrong.
    pub message: String,
}

/// Why an update cycle failed.
#[derive(Clone, Debug)]
pub enum CycleError {
    /// The public IPv4 address could not be fetched.
    NoPublicIp,
    /// No zone or record of this name exists at the provider.
    NotFound(String),
    /// The provider or the network failed (a timeout, a 5xx answer).
    Transient(String),
    /// The configuration cannot work (a malformed schedule, an unusable
    /// credential); retrying does not help.
    Fatal(String),
    /// Some record updates failed while the others were attempted too.
    Aggregate(Vec<UpdateFailure>),
}

/// Whether a failure is worth retrying within the same invocation.
pub open spec fn recoverable(e: CycleError) -> bool {
    match e {
        CycleError::NoPublicIp => true,
        CycleError::Transient(_) => true,
        CycleError::Aggregate(_) => true,
        CycleError::NotFound(_) => false,
        CycleError::Fatal(_) => false,
    }
}

impl CycleError {
    /// Whether a retry within the same invocation may succeed: a missing
    /// address, a provider or network failure, or failed record updates.
    /// A name that does not exist, or a fatal error, is not retried.
    pub fn is_recoverable(&self) -> (r: bool)
        ensures
            r == recoverable(*self),
    {
        match self {
            CycleError::NoPublicIp => true,
            CycleError::Transient(_) => true,
            CycleError::Aggregate(_) => true,
            CycleError::NotFound(_) => false,
            CycleError::Fatal(_) => false,
        }
    }
}

} // verus!
