//! A minimal HTTP edge service: static files under a served root, a liveness
//! probe, and a fixed CORS / Content-Security-Policy policy, expressed as
//! verified transforms over plain request and response values.

pub mod error;
pub mod text;
pub mod path;
pub mod http;
pub mod serve;
pub mod pipeline;
pub mod laws;

pub use error::Error;
pub use error::Result;
