//! An EGL rendering context on a GBM display, with verified decisions. The
//! native work (negotiating a configuration, binding a context to the thread,
//! presenting, looking up GL symbols, releasing handles) is done by the
//! caller against the platform; this library decides what is asked of the
//! platform and what follows from its answers.

pub mod context;
pub mod error;
pub mod format;
pub mod handle;
pub mod laws;
