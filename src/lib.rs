//! A client for the state-store API of a Dapr sidecar.
//!
//! The library assembles the request messages of the four state operations
//! (get, save, delete, bulk delete), fills in the defaults that the caller may
//! leave out, and maps what the transport reports into the library's two error
//! kinds. Sending a request and awaiting its answer is left to the transport.
pub mod client;
pub mod error;
pub mod state;

pub use client::Client;
pub use error::Error;
pub use state::{
    DeleteBulkStateRequest, DeleteStateRequest, GetStateRequest, GetStateResponse,
    SaveStateRequest, StateItem,
};
