//! A fixed-size worker pool with a cooperative shutdown protocol, together with
//! the per-connection handler loop and the termination registry that a small
//! chat server and client are built from.
//!
//! Everything in this crate is a decision: which message goes on the job queue,
//! what a worker does with the message it dequeued, what a connection handler
//! does after each poll, read or write. Threads, sockets and blocking calls are
//! left to the caller, who performs the actions this crate returns and reports
//! back what happened.

pub mod chat;
pub mod connection;
pub mod device;
pub mod file_io;
pub mod packet;
pub mod pool_proofs;
pub mod registry;
pub mod shutdown;
pub mod threadpool;
