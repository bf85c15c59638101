use vstd::prelude::*;

verus! {

/// A failure surfaced by the confined resource itself while an operation ran
/// against it: the analogue of a constraint violation or a malformed request
/// in a full storage engine.
#[derive(Clone, Copy, Debug, PartialEq, Eq, Structural)]
pub enum ResourceError {
    /// The operation named a table that does not exist.
    NoSuchTable,
    /// The operation named a row that does not exist in its table.
    NoSuchRow,
    /// Incrementing the addressed cell would overflow its storage.
    Overflow,
}

/// An error produced by the caller's own operation logic, not by the
/// resource. Its content travels through the bridge untouched, so the
/// caller can recover it by inspection from the wrapped error.
#[derive(Clone, Copy, Debug, PartialEq, Eq, Structural)]
pub struct CallerError {
    pub code: u64,
}

/// What a single operation's execution can fail with on the worker side.
#[derive(Clone, Copy, Debug, PartialEq, Eq, Structural)]
pub enum OpError {
    /// The resource itself rejected the operation.
    Resource(ResourceError),
    /// The caller's own logic failed with a value of its choosing.
    Custom(CallerError),
}

/// The bridge's error taxonomy, as seen by a caller awaiting a delegation.
#[derive(Clone, Copy, Debug, PartialEq, Eq, Structural)]
pub enum ErrorKind {
    /// A failure surfaced by the resource during the operation.
    Resource(ResourceError),
    /// The caller-supplied error, preserved unchanged.
    Other(CallerError),
    /// The bridge's channel or worker has terminated: shutdown was requested,
    /// every sender was dropped, or the worker exited after a failed open.
    Closed,
}

/// The error type every delegation returns on failure.
#[derive(Clone, Copy, Debug, PartialEq, Eq, Structural)]
pub struct Error {
    pub kind: ErrorKind,
}

/// How a worker-side operation failure is wrapped for the caller: the
/// category is kept and the content is untouched.
pub open spec fn wrap_kind(oe: OpError) -> ErrorKind {
    match oe {
        OpError::Resource(re) => ErrorKind::Resource(re),
        OpError::Custom(ce) => ErrorKind::Other(ce),
    }
}

/// The caller-supplied error held inside a bridge error, if any.
pub open spec fn recovered(e: Error) -> Option<CallerError> {
    match e.kind {
        ErrorKind::Other(ce) => Some(ce),
        _ => None,
    }
}

impl Error {
    /// The error returned whenever the bridge has terminated.
    pub fn closed() -> (e: Error)
        ensures
            e.kind is Closed,
    {
        Error { kind: ErrorKind::Closed }
    }

    /// Wrap a worker-side operation failure for the caller.
    pub fn from_op(oe: OpError) -> (e: Error)
        ensures
            e.kind == wrap_kind(oe),
    {
        match oe {
            OpError::Resource(re) => Error { kind: ErrorKind::Resource(re) },
            OpError::Custom(ce) => Error { kind: ErrorKind::Other(ce) },
        }
    }

    /// Which kind of failure this is.
    pub fn kind(&self) -> (k: &ErrorKind)
        ensures
            *k == self.kind,
    {
        &self.kind
    }

    /// Recover the caller-supplied error by inspection, if this error
    /// wraps one.
    pub fn downcast_ref(&self) -> (r: Option<&CallerError>)
        ensures
            match r {
                Some(ce) => recovered(*self) == Some(*ce),
                None => recovered(*self) is None,
            },
    {
        self.kind.downcast_ref()
    }
}

impl ErrorKind {
    /// Recover the caller-supplied error by inspection, if this kind
    /// carries one.
    pub fn downcast_ref(&self) -> (r: Option<&CallerError>)
        ensures
            match r {
                Some(ce) => self matches ErrorKind::Other(c) && c == *ce,
                None => !(self is Other),
            },
    {
        match self {
            ErrorKind::Other(ce) => Some(ce),
            _ => None,
        }
    }
}

} // verus!
