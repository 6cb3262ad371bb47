//! A fixed-size worker pool: messages, the worker state machine, the pool
//! that owns the queue and the workers, and what holds of every run.
//!
//! Threads, channels and sockets belong to the program that embeds the pool.
//! Here a job is a ticket (`u64`); whoever runs the pool maps tickets to
//! closures, moves them between threads, and tells the pool what happened.

pub mod model;
pub mod laws;
pub mod worker;
pub mod pool;
pub mod http;
