use vstd::prelude::*;

verus! {

/// The error kinds the bar distinguishes. Errors raised inside a tick or a
/// click handler are logged and swallowed; only startup errors are fatal.
#[derive(Clone, Copy, Debug, PartialEq, Eq, Structural)]
pub enum BarError {
    /// The environment variable naming the compositor instance is absent.
    ConfigMissing,
    /// A socket connect, read or write failed.
    IoError,
    /// The compositor's response was malformed or had no numeric id.
    ProtocolError,
    /// No default display was available at startup; fatal.
    DisplayUnavailable,
}

} // verus!
