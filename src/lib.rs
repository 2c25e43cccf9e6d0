//! A typed bridge between a non-blocking request path and pools of blocking
//! workers: the pool and its completion slots, the mapping of worker outcomes
//! to replies, and the front door's admission rules.
pub mod bridge;
pub mod dispatch;
pub mod explorer;
pub mod front;
pub mod message;
pub mod pool;
