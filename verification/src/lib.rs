//! Cookie-keyed server-side sessions for an HTTP request pipeline.

pub mod async_io;
pub mod backend;
pub mod codec;
pub mod cookie;
pub mod error;
mod handle;
pub mod http;
pub mod identifier;
pub mod laws;
pub mod memory;
pub mod middleware;
pub mod session;
pub mod state;
