//! A fixed-size worker pool and the small protocol it serves.
//!
//! The pool is kept as a verified state machine: [`ThreadPool`] records which
//! worker waits, which executes, what is queued and how far teardown has
//! come, and every operation on it is one transition of the model in
//! [`model`]. What holds of every reachable state is proved in [`laws`].
//! Threads, locks and sockets belong to the caller.

pub mod error;
pub mod laws;
pub mod model;
pub mod pool;
pub mod response;
pub mod worker;

pub use error::PoolCreationError;
pub use pool::ThreadPool;
