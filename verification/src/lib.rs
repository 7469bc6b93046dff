//! A virtual file system shim for SQLite, and a coordinator for the locks
//! and the WAL index of databases that several clients share.
//!
//! The crate holds the logic of both, with contracts that Verus checks:
//!
//! - The shim ([`vfs`], [`io`]) answers the callbacks of the database
//!   engine with the help of a backend ([`backend`]): it translates flags
//!   ([`open_options`]), locks ([`lock`]) and result codes ([`codes`]),
//!   keeps the state of every open file, and decides when the mapped
//!   regions of the WAL index are brought in line with the backend.
//! - The coordinator ([`server`]) keeps, for every database path, the state
//!   of the file lock ([`path_lock`]) and the WAL index ([`wal_index`])
//!   with the locks on its regions ([`wal_lock`]). Paths are compared in
//!   their normal form ([`path`]). That the coordinator and its connections
//!   always agree about who holds which lock is proved in [`system`].
//! - Clients and coordinator exchange requests and responses
//!   ([`request`], [`response`], [`client`]) in frames ([`frame`]) made of
//!   big-endian fields ([`codec`]).
//!
//! Sockets, files and the method table of the engine are the business of
//! whoever uses the crate: it is handed plain values, and hands plain
//! values back.

pub mod backend;
pub mod client;
pub mod codec;
pub mod codes;
pub mod counting;
pub mod error;
pub mod frame;
pub mod io;
pub mod lock;
pub mod open_options;
pub mod path;
pub mod path_lock;
pub mod request;
pub mod response;
pub mod server;
pub mod system;
pub mod vfs;
pub mod wal_index;
pub mod wal_lock;
