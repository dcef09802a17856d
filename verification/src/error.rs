use vstd::prelude::*;

verus! {

/// Errors of the vhost-user message layer.
#[derive(Debug, Clone, Copy, PartialEq, Eq, Structural)]
pub enum Error {
    /// The message is malformed, carries an unknown request code, or is not
    /// the reply that was waited for.
    InvalidMessage,
    /// The connection was marked as failed; the value is the raw OS error code
    /// it was marked with.
    SocketBroken(i32),
}

/// The result type of the vhost-user message layer.
pub type Result<T> = core::result::Result<T, Error>;

} // verus!
