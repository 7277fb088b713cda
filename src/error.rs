use vstd::prelude::*;

verus! {

/// The two ways an operation of the library can fail.
pub enum Error {
    /// The transport session could not be established; holds the transport's
    /// diagnostic message.
    ConnectionError { message: String },
    /// A single remote call failed; holds the status code and message that the
    /// transport or the remote service reported.
    CallError { code: i32, message: String },
}

impl Error {
    /// The diagnostic message carried by the error, whatever its kind.
    pub fn message(&self) -> (r: &String)
        ensures
            r == match self {
                Error::ConnectionError { message } => message,
                Error::CallError { message, .. } => message,
            },
    {
        match self {
            Error::ConnectionError { message } => message,
            Error::CallError { message, .. } => message,
        }
    }

    /// Whether the error reports a failure to connect.
    pub fn is_connection_error(&self) -> (r: bool)
        ensures
            r == (self is ConnectionError),
    {
        match self {
            Error::ConnectionError { .. } => true,
            Error::CallError { .. } => false,
        }
    }
}

/// The outcome of one remote call as the transport reports it: the response, or
/// the status code and message of the failure.
pub type CallOutcome<R> = Result<R, (i32, String)>;

/// Maps what the transport reported for one remote call to the library's
/// result: a response is returned as it came, a failure becomes a `CallError`
/// that carries the transport's code and message.
pub fn call_result<R>(outcome: CallOutcome<R>) -> (r: Result<R, Error>)
    ensures
        match outcome {
            Ok(v) => r == Ok::<R, Error>(v),
            Err((code, message)) => r == Err::<R, Error>(Error::CallError { code, message }),
        },
{
    match outcome {
        Ok(v) => Ok(v),
        Err((code, message)) => Err(Error::CallError { code, message }),
    }
}

} // verus!
