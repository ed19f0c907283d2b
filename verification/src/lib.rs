//! Client-side and worker-side logic of the NeuG graph database bindings.
//!
//! The engine runs in a separate worker process. This library holds what both
//! ends decide: the request and response messages, the client's bookkeeping of
//! databases, connections and outstanding requests, and the worker's registry
//! of open handles. Every function here is verified against its contract; the
//! process plumbing lives outside the library.
pub mod connection;
pub mod database;
pub mod error;
pub mod properties;
pub mod protocol;
pub mod sidecar;
pub mod worker;

pub use connection::{AccessMode, Connection, QueryResult};
pub use database::{Database, DatabaseOptions, Mode};
pub use error::Error;
pub use protocol::{Request, RequestPayload, Response, ResponsePayload};
