//! Observes a controller-input API from inside a host process: the pure logic
//! of a proxy library that forwards one export to the genuine system library,
//! installs an inline hook on a second API, and publishes what the hooked call
//! wrote to a rendering consumer.

pub mod backend;
pub mod install;
pub mod path;
pub mod snapshot;
pub mod store;
