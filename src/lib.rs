//! A uniform interface for things that turn a request into a response or an
//! error, and a cheaply cloned handle that erases the implementing type.

pub mod boxed;
pub mod laws;
pub mod service;

pub use boxed::BoxService;
pub use service::{Service, ServiceExt};
