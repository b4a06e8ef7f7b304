//! A small embeddable HTTP server toolkit: start-up settings, a response
//! builder, and the per-connection lifecycle that the accept loop drives.
pub mod config;
pub mod headers;
pub mod response;
pub mod server;
pub mod status;

pub use config::{Config, SecurityConfig};
pub use response::{Response, ResponseBuilder};
pub use server::App;
