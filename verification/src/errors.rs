//! The error taxonomy of the command-execution layer.

use vstd::prelude::*;

verus! {

/// Why a command or a parser failed.  Every failure aborts the current
/// command; callers branch on the variant.
#[derive(Clone, Copy, Debug, PartialEq, Eq, Structural)]
pub enum Error {
    /// An empty CLI value with no environment fallback to fall back on.
    MissingArgument,
    /// A malformed hexadecimal encoding.
    InvalidHex,
    /// A byte sequence of the wrong width for its domain value.
    InvalidLength,
    /// A non-numeric or overflowing unsigned integer.
    InvalidNumber,
    /// A key-file document that is not well-formed JSON.
    MalformedKeyfile,
    /// A remote operation was asked for while no RPC connector is configured.
    NotConnected,
    /// An RPC reply whose shape was not the expected string.
    UnexpectedReply,
}

} // verus!
