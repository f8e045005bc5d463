//! A type-erased service registry: strongly typed request handlers are
//! registered under one uniform interface and a request is routed to its
//! handler by the runtime identity of the request's type.
pub mod adapter;
pub mod demo;
pub mod laws;
pub mod registry;
pub mod service;
