//! Error values.

use vstd::prelude::*;

verus! {

/// Client error values.
///
/// Every public operation returns a typed error distinguishing "the server
/// rejected this" from "the local credential/config/input was invalid" from
/// "the connection dropped".
#[derive(Debug)]
pub enum Error {
    /// An error occurred in the wire envelope library.
    Blather(String),
    /// An I/O error occurred.
    IO(String),
    /// The server returned `Fail`.  The parameter buffer carries the
    /// server's description of the failure.
    ServerError(blather::Params),
    /// A state was entered which was unexpected; typically the client
    /// expected one kind of reply and received another.
    BadState(String),
    /// The server disconnected, or the client is in a disconnected state.
    Disconnected,
    /// A function was called with an invalid or unknown input.
    BadInput(String),
    /// A function was called with incomplete or ambiguous parameters.
    BadParams(String),
    /// Authentication was requested, but the credential record is missing
    /// or invalid.
    InvalidCredentials(String),
    /// Some expected data is missing from a reply.
    MissingData(String),
    /// A value could not be parsed.
    Parse(String),
    /// An error occurred while loading a configuration file.
    Figment(String),
}

impl Error {
    /// Build an invalid-credentials error from a message.
    pub fn invalid_cred(e: &str) -> (r: Self)
        ensures
            r matches Error::InvalidCredentials(s) && s@ == e@,
    {
        Error::InvalidCredentials(e.to_owned())
    }

    /// Build a missing-data error from a message.
    pub fn miss_data(e: &str) -> (r: Self)
        ensures
            r matches Error::MissingData(s) && s@ == e@,
    {
        Error::MissingData(e.to_owned())
    }

    /// Build a bad-state error from a message.
    pub fn bad_state(e: &str) -> (r: Self)
        ensures
            r matches Error::BadState(s) && s@ == e@,
    {
        Error::BadState(e.to_owned())
    }

    /// Build a parse error from a message.
    pub fn parse(e: &str) -> (r: Self)
        ensures
            r matches Error::Parse(s) && s@ == e@,
    {
        Error::Parse(e.to_owned())
    }

    /// A one-line description of the error: its kind, and the detail message
    /// where one is carried.
    pub fn describe(&self) -> (r: String)
        ensures
            r@ == (match self {
                Error::Blather(s) => "Msg buffer error; "@ + s@,
                Error::IO(s) => "I/O error; "@ + s@,
                Error::ServerError(_) => "Server replied with a failure"@,
                Error::BadState(s) => "Encountered an unexpected/bad state: "@ + s@,
                Error::Disconnected => "Disconnected"@,
                Error::BadInput(s) => "Bad input; "@ + s@,
                Error::BadParams(s) => "Bad parameters; "@ + s@,
                Error::InvalidCredentials(s) => "Invalid credentials; "@ + s@,
                Error::MissingData(s) => "Missing data; "@ + s@,
                Error::Parse(s) => "Parsing failed; "@ + s@,
                Error::Figment(s) => "Configuration error; "@ + s@,
            }),
    {
        match self {
            Error::Blather(s) => with_detail("Msg buffer error; ", s),
            Error::IO(s) => with_detail("I/O error; ", s),
            Error::ServerError(_) => "Server replied with a failure".to_owned(),
            Error::BadState(s) => with_detail("Encountered an unexpected/bad state: ", s),
            Error::Disconnected => "Disconnected".to_owned(),
            Error::BadInput(s) => with_detail("Bad input; ", s),
            Error::BadParams(s) => with_detail("Bad parameters; ", s),
            Error::InvalidCredentials(s) => with_detail("Invalid credentials; ", s),
            Error::MissingData(s) => with_detail("Missing data; ", s),
            Error::Parse(s) => with_detail("Parsing failed; ", s),
            Error::Figment(s) => with_detail("Configuration error; ", s),
        }
    }
}

/// A kind prefix followed by the detail message.
fn with_detail(prefix: &str, detail: &String) -> (r: String)
    ensures
        r@ == prefix@ + detail@,
{
    let mut r = prefix.to_owned();
    r.append(detail.as_str());
    r
}

} // verus!
