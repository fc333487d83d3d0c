//! The decision core of a local development file server with live reload.
//!
//! The server hands out the files of a directory tree over plain HTTP, one
//! request per connection, and appends a small script to every HTML page. The
//! script keeps a connection to the server open; when a file under the tree
//! changes, the server sends a frame down every such connection and the pages
//! reload.
//!
//! This library decides and never acts: it touches no socket, no file and no
//! clock. Its caller accepts connections, reads files, watches the tree and
//! holds the lock; the library says what to answer, whom to notify and whom to
//! drop. Its functions are verified against their contracts, with one
//! exception: [`mime`] asks the standard library for the final component of a
//! path, and takes the answer on trust.
//!
//! - [`request`] reads the requested path out of a request line.
//! - [`mime`] finds the content type for a path.
//! - [`response`] composes responses and lays them out on the wire.
//! - [`reload`] holds the reserved path, the frames and the reload script.
//! - [`handler`] is the state machine that answers one connection.
//! - [`registry`] keeps the subscribers and plans and settles broadcasts.
//! - [`server`] holds the server loop's own decisions.
//! - [`text`] holds helpers on strings and bytes.

pub mod handler;
pub mod mime;
pub mod registry;
pub mod reload;
pub mod request;
pub mod response;
pub mod server;
pub mod text;
