use crate::error::Error;
use vstd::prelude::*;

verus! {

/// A client of the sidecar's state store, holding an open connection of some
/// transport.
pub struct Client<T>(pub T);

impl<T> Client<T> {
    /// The client for the outcome of one connection attempt: the client that
    /// holds the connection, or a `ConnectionError` that carries the
    /// transport's diagnostic message, with no client at all.
    pub fn from_connect_outcome(outcome: Result<T, String>) -> (r: Result<Client<T>, Error>)
        ensures
            match outcome {
                Ok(c) => r == Ok::<Client<T>, Error>(Client(c)),
                Err(message) => r == Err::<Client<T>, Error>(Error::ConnectionError { message }),
            },
    {
        match outcome {
            Ok(c) => Ok(Client(c)),
            Err(message) => Err(Error::ConnectionError { message }),
        }
    }
}

} // verus!
