//! Version information of the WasmEdge native runtime, read from the
//! runtime's build-time constants and rendered as text.

pub mod buffer;

pub mod semver;

pub mod version;
