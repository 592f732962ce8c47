//! A minimal health-check HTTP service, verified.
//!
//! The library holds the service's logic: resolving the listen port from an
//! optional environment value, formatting the bind address, dispatching a
//! request's method and path to a route target, and producing the JSON bodies
//! (the health probe's payload and the OpenAPI description). The surrounding
//! binary does the actual listening and serving.

pub mod config;
pub mod health;
pub mod openapi;
pub mod routes;
pub mod text;
