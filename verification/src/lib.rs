//! Dispatch pool for blocking key-value storage requests.
//!
//! Asynchronous callers hand point lookups, batched lookups and iterator
//! seeks to a bounded set of worker threads through bounded queues; each
//! worker runs the blocking storage call and answers over a one-shot reply
//! channel. This crate holds the pool's rules: how many workers and queues
//! there are and how large, which queue a caller on a given core uses, which
//! cores a worker is pinned to, what a worker does with a command, and what
//! a caller is told when a queue is closed or a reply never comes.
//!
//! The code that suspends, blocks or spawns threads lives with the embedding
//! program; it drives the functions here with what it observed.

pub mod limits;
pub mod topology;
pub mod error;
pub mod command;
pub mod channel;
pub mod worker;
pub mod pool;
