use vstd::prelude::*;
use vstd::string::*;

verus! {

/// Why an operation on a decoding session did not succeed.
#[derive(Debug, PartialEq, Eq)]
pub enum Error {
    /// The stream is exhausted. This is how reading ends normally.
    EOF,
    /// The engine could not decode the input.
    BadInput,
    /// The engine's one-time initialisation failed.
    InitializationFailed,
    /// The engine could not hand out a handle.
    AllocationFailed,
    /// The decode parameters were unknown to this library or refused by the engine.
    ParameterRejected,
    /// The named source could not be opened.
    OpenFailed { source: String },
    /// The engine could not report an output format for the opened source.
    FormatNegotiationFailed,
    /// Closing the input during disposal did not succeed.
    CloseFailed,
}

/// The mathematical value of an [`Error`]: the same kinds, with the source
/// identifier as a sequence of characters.
pub enum Failure {
    EOF,
    BadInput,
    InitializationFailed,
    AllocationFailed,
    ParameterRejected,
    OpenFailed { source: Seq<char> },
    FormatNegotiationFailed,
    CloseFailed,
}

impl Failure {
    /// The fixed text that describes each kind of failure.
    pub open spec fn text(self) -> Seq<char> {
        match self {
            Failure::EOF => "End of reader"@,
            Failure::BadInput => "Bad input"@,
            Failure::InitializationFailed => "failed to initialize mpg123"@,
            Failure::AllocationFailed => "failed to instantiate mpg123"@,
            Failure::ParameterRejected => "failed to set parameters"@,
            Failure::OpenFailed { .. } => "failed to open"@,
            Failure::FormatNegotiationFailed => "failed to get format"@,
            Failure::CloseFailed => "failed to close"@,
        }
    }
}

impl Failure {
    /// The message of a failure: its text, followed for `OpenFailed` by the
    /// source identifier between backquotes.
    pub open spec fn message(self) -> Seq<char> {
        match self {
            Failure::OpenFailed { source } => "failed to open"@ + " `"@ + source + "`"@,
            _ => self.text(),
        }
    }
}

impl View for Error {
    type V = Failure;

    open spec fn view(&self) -> Failure {
        match self {
            Error::EOF => Failure::EOF,
            Error::BadInput => Failure::BadInput,
            Error::InitializationFailed => Failure::InitializationFailed,
            Error::AllocationFailed => Failure::AllocationFailed,
            Error::ParameterRejected => Failure::ParameterRejected,
            Error::OpenFailed { source } => Failure::OpenFailed { source: source@ },
            Error::FormatNegotiationFailed => Failure::FormatNegotiationFailed,
            Error::CloseFailed => Failure::CloseFailed,
        }
    }
}

impl Clone for Error {
    fn clone(&self) -> (copy: Error)
        ensures
            copy@ == self@,
    {
        match self {
            Error::EOF => Error::EOF,
            Error::BadInput => Error::BadInput,
            Error::InitializationFailed => Error::InitializationFailed,
            Error::AllocationFailed => Error::AllocationFailed,
            Error::ParameterRejected => Error::ParameterRejected,
            Error::OpenFailed { source } => Error::OpenFailed { source: source.clone() },
            Error::FormatNegotiationFailed => Error::FormatNegotiationFailed,
            Error::CloseFailed => Error::CloseFailed,
        }
    }
}

impl Error {
    /// A short description of the error in words.
    pub fn description(&self) -> (text: &'static str)
        ensures
            text@ == self@.text(),
    {
        match self {
            Error::EOF => "End of reader",
            Error::BadInput => "Bad input",
            Error::InitializationFailed => "failed to initialize mpg123",
            Error::AllocationFailed => "failed to instantiate mpg123",
            Error::ParameterRejected => "failed to set parameters",
            Error::OpenFailed { .. } => "failed to open",
            Error::FormatNegotiationFailed => "failed to get format",
            Error::CloseFailed => "failed to close",
        }
    }

    /// The error as a message for a reader, with the source identifier
    /// where the error carries one.
    pub fn message(&self) -> (text: String)
        ensures
            text@ == self@.message(),
    {
        match self {
            Error::OpenFailed { source } => String::from_str(self.description()).concat(
                " `",
            ).concat(source.as_str()).concat("`"),
            _ => String::from_str(self.description()),
        }
    }

    /// Whether the error is the ordinary end of the stream rather than a fault.
    pub fn is_end_of_stream(&self) -> (yes: bool)
        ensures
            yes == (self@ == Failure::EOF),
    {
        match self {
            Error::EOF => true,
            _ => false,
        }
    }

    /// The source identifier that an [`Error::OpenFailed`] carries.
    pub fn source_identifier(&self) -> (name: Option<String>)
        ensures
            match self@ {
                Failure::OpenFailed { source } => name is Some && name->0@ == source,
                _ => name is None,
            },
    {
        match self {
            Error::OpenFailed { source } => Some(source.clone()),
            _ => None,
        }
    }
}

} // verus!
