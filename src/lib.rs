//! Classification of the faults of an HTTP/WebSocket client binding into a
//! closed error enumeration, and projection of that enumeration onto the
//! exception classes that a host runtime raises.

mod outside;

pub mod class;
pub mod engine;
pub mod error;
pub mod laws;

pub use class::ExceptionClass;
pub use engine::{cascade, EngineFault, Predicate};
pub use error::{Error, Projection};
