//! Verified core of ShareMouse, which shares one mouse and keyboard between machines.
//!
//! The modules hold the wire protocol, the byte stream of a connection, the
//! screen layout, the routing of input events, and the decisions that the
//! macOS and Windows back ends make. Sockets, threads and operating system
//! calls belong to the application around this library.
pub mod bincode_calls;
pub mod codec;
pub mod commands;
pub mod engine;
pub mod network;
pub mod peer;
pub mod platform;
pub mod protocol;
pub mod screen;
pub mod stream;
pub mod wire;
