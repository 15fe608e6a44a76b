use vstd::prelude::*;

verus! {

/// The failures that the host reports to script code.
#[derive(Debug, Clone, PartialEq, Eq)]
pub enum HostError {
    /// A module specifier could not be resolved against its referrer.
    Resolution(String),
    /// A module could not be read, parsed or transpiled.
    Load(String),
    /// A listener could not be bound.
    Bind(String),
    /// The operation was pending, or started, after its resource was closed.
    Cancelled,
    /// A file or stream operation failed.
    Io(String),
    /// The handle names no open resource of the expected kind.
    BadResource,
    /// The table has handed out every handle it can represent.
    Exhausted,
}

} // verus!
