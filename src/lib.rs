//! Sandbox execution host for packaged pixel applications: the package
//! container codec, the guest frame bridge and hand-off buffer, and the
//! decisions of the sandbox host and its dispatch loop.
pub mod frame;
pub mod bridge;
pub mod metadata;
pub mod loader;
pub mod sandbox;
