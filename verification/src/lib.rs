//! The logic of a reverse proxy that ends mutual TLS and forwards each request to
//! the host that the request itself names: which coding a body is in, what may go
//! upstream and under which URL, what is recorded for the log, and what the accept
//! loop does with what the listener gives it. Sockets, the handshake and the calls
//! upstream are the caller's; every decision is taken here.

pub mod acceptor;
pub mod agent;
pub mod context;
pub mod encoding;
pub mod erring;
pub mod headers;
pub mod pem;
pub mod text;
