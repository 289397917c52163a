use vstd::prelude::*;

verus! {

/// Why an operation on the control channel failed.
#[derive(Debug, Clone, Copy, PartialEq, Eq, Structural)]
pub enum FtpError {
    /// The underlying stream failed to read, write or flush.
    TransportError,
    /// The bytes received are not a reply of the form `<code> <message>`.
    MalformedReply,
    /// A well-formed reply whose code says the server declined the request.
    ProtocolRejection,
}

} // verus!
