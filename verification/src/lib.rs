//! Core of a small scriptable HTTP server.
//!
//! Endpoint behaviour is supplied at runtime by Lua scripts: a configuration
//! script populates a route table, and each request is answered by loading a
//! handler script and running it through a three-stage pipeline
//! (`middleware`, `handler`, `response_hook`). This crate holds the verified
//! dispatch core: the route table, the request/response marshalling rules,
//! the pipeline's short-circuit policy, and response finalization. Network
//! I/O and file reading live outside, in the surrounding binary.

pub mod config;
pub mod engine;
pub mod headers;
pub mod pipeline;
pub mod request;
pub mod response;
pub mod routes;
