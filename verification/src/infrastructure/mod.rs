//! The message bus around the service.

pub mod nats;
