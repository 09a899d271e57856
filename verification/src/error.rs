use vstd::prelude::*;

use crate::mode::ChannelMode;

verus! {

/// What went wrong in a channel operation.
#[derive(Debug, PartialEq, Eq)]
pub enum ErrorKind {
    /// The server could not be reached, or it did not greet the client.
    ConnectToServer,
    /// Writing a command to the stream failed.
    WriteToStream,
    /// Reading a reply from the stream failed.
    ReadStream,
    /// The channel was asked to start while it was already started.
    RunCommand,
    /// The command, named by its method, is not available in the channel's
    /// current mode (`None`: the channel was never started).
    UnsupportedCommand((&'static str, Option<ChannelMode>)),
}

/// The error of every channel operation.
#[derive(Debug, PartialEq, Eq)]
pub struct Error {
    kind: ErrorKind,
}

impl Error {
    /// The kind of the error.
    pub closed spec fn spec_kind(&self) -> ErrorKind {
        self.kind
    }

    /// Makes an error of the given kind.
    pub fn new(kind: ErrorKind) -> (e: Error)
        ensures
            e.spec_kind() == kind,
    {
        Error { kind }
    }

    /// The kind of the error.
    pub fn kind(&self) -> (k: &ErrorKind)
        ensures
            *k == self.spec_kind(),
    {
        &self.kind
    }
}

} // verus!
