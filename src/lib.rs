//! Coordination core of a two-context render engine: a controller that owns input
//! and a render surface, and a worker that owns a paced frame loop.
//!
//! Every decision of the protocol is a verified state machine here; the host
//! (message ports, timers, the DOM) feeds events in and carries the resulting
//! messages out.

pub mod pacer;
pub mod queue;
pub mod envelope;
pub mod frame;
pub mod controller;
pub mod worker;

pub use controller::EngineMain;
pub use frame::FrameTimer;
pub use pacer::FramePacer;
pub use queue::EventQueue;
pub use worker::EngineWorker;
