//! Artifact generation for Drone firmware projects: the catalog of supported
//! devices, the names of the crates they build on, and the templates that turn
//! a device and a few build parameters into project files and probe scripts.

pub mod crates;
pub mod devices;
pub mod notes;
pub mod ports;
pub mod probe;
pub mod templates;
pub mod text;
pub mod usage;
pub mod wrap;
