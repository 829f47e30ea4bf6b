//! Execution core of a dataflow runtime: links between node ports, the
//! input-rule firing discipline, per-node runners with their supervisor,
//! the recorder that taps a source, and the plugin loader's decisions.
//!
//! Everything here is synchronous and free of I/O: suspension points are
//! returned to the caller as values, and what the outside world did is handed
//! back in as events.

pub mod types;
pub mod model;
pub mod message;
pub mod link;
pub mod token;
pub mod engine;
pub mod io;
pub mod signal;
pub mod logging;
pub mod runners;
pub mod source;
pub mod operator;
pub mod sink;
pub mod connector;
pub mod loader;
