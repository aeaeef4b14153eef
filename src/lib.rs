//! Shares a bounded pool of diesel connections between the units of work of a
//! web application: the pool is built once, its handle is registered in each
//! request's context, and handler code checks a connection out of it.

pub mod config;
pub mod context;
pub mod middleware;
pub mod pool;
