//! Status endpoint for a single tunnel connection: routing of requests and
//! rendering of the fixed responses, over a snapshot of the tunnel state.
pub mod json;
pub mod laws;
pub mod routes;
pub mod text;
pub mod tunnel;
