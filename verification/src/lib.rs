//! Bearer-credential gate for an HTTP resource.
//!
//! A request is admitted when its `Authorization` header carries a key of the
//! credential registry; the server that hosts the resource is driven through
//! an explicit lifecycle. Every function is verified against a contract over
//! mathematical models of the registry, the request and the lifecycle.

pub mod text;
pub mod registry;
pub mod authentication;
pub mod server;
pub mod lifecycle;
pub mod controller;
pub mod store;
