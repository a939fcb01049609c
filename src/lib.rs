//! A client for a continuous-integration service's REST API: task names,
//! configuration merging, and the authenticated requests of each operation.
pub mod client;
pub mod config;
pub mod dispatch;
pub mod model;
pub mod task;
pub mod text;
pub mod url;
