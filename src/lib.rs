//! A native plugin host: discovery of plugin files in a directory, a registry
//! that keeps each loaded library together with the instance it produced, the
//! records that plugins hand back, and the pure parts of a catalog plugin.
pub mod discovery;
pub mod registry;
pub mod title;
pub mod shiki;
