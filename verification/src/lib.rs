//! Host introspection for a desktop front end: the capacity of a mounted
//! volume, the byte size of a directory subtree, and one request/response
//! exchange over TCP.
//!
//! Every operation is stateless. What was read from the file system or from
//! a socket is handed in as plain values, so that each decision the library
//! takes is stated in a contract and proved. The table of mounted volumes is
//! the one thing the library reads itself.

pub mod disk;
pub mod error;
pub mod tcp;
pub mod tree;
pub mod tree_laws;
pub mod volume;
