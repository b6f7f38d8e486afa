//! GPU rendering core of a compositing editor: resource reconciliation,
//! ordered layer/effect dispatch and per-frame script hook coordination.

pub mod bindings;
pub mod error;
pub mod gpu_core;
pub mod python_scripts;
pub mod scalar;
pub mod script_host;
pub mod texture_manager;
