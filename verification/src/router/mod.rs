//! Routes, the route table, and dispatch with fall-through.

pub mod args;
pub mod coerce;
pub mod laws;
pub mod route;
pub mod router;

pub use args::{Args, Middleware};
pub use route::{DefaultRoute, Route, SegmentTypeMissmatch};
pub use router::{Router, UnhandledRequest};
