//! A bridge between a blocking request handler and a cooperative HTTP engine:
//! the handler contract and its per-connection and per-request adapters, the
//! scheduling rules of a bounded worker pool, and the sparse configuration
//! that is laid over the engine's defaults.

pub mod dispatch;
pub mod pool;
pub mod server;
