//! Run named, typed procedures inside a binary on another host, reached
//! through a remote shell.
//!
//! The library holds the route invocation protocol: the text envelope that
//! carries requests and responses, the route registry, the client side that
//! turns a call into a transport invocation and its outcome back into a
//! result, and the server side that turns the invoking arguments into a
//! handler call and a reply.

mod error;
pub use error::Error;

pub mod codec;
pub mod registry;
pub mod server;
pub mod ssh;
pub mod client;
pub mod example;
