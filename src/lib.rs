//! A client for a hosted source-control platform's release API: request
//! construction, bearer authentication, response interpretation, and the four
//! release operations (list, get, create, upload an asset), with the network
//! transport supplied by the caller.

pub mod model;
pub mod request;
pub mod response;
pub mod ops;
pub mod laws;
