pub mod codec;
pub mod error;
pub mod exports;
pub mod interp;
pub mod loader;
pub mod memory;
pub mod module_scan;
pub mod orchestrator;
pub mod registry;
pub mod resolver;
