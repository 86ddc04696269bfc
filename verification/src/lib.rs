//! The rules of a minimal TCP greeter: a server that answers every
//! connection with one fixed text.
//!
//! The crate performs no input or output. It says which address the server
//! binds, what it replies to a request, and which operation follows which;
//! a driver performs the operations on a real socket.

pub mod address;
pub mod reply;
pub mod server;
pub mod trace;
