//! Provisioning and build configuration for a versioned, platform-specific
//! WebAssembly SDK.
//!
//! The library is split along the two stages of the flow:
//! a provisioner that resolves a local root for the SDK (downloading and
//! extracting it idempotently when it is absent), and a configurator that
//! derives a cross-compilation environment, stages source files, and
//! describes the binding-generator and compiler invocations. All decisions
//! are made here over plain values; the surrounding program performs the
//! actual network and filesystem work and hands the outcomes back.

pub mod configure;
pub mod descriptor;
pub mod errors;
pub mod platform;
pub mod provision;
pub mod shim;
