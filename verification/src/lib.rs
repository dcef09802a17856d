//! The vhost-user message header, the message types of the vhost-user GPU
//! protocol, and the decisions a GPU backend takes when it talks to its
//! frontend over the GPU socket.
//!
//! Everything here is plain data and pure decisions; the socket I/O that
//! carries the messages lives outside this library.

pub mod error;
pub mod message;
pub mod header;
pub mod gpu_message;
pub mod gpu_backend_req;
