//! Scaffolding of embedded firmware projects: target resolution against
//! manifest catalogs and synthesis of per-target build artifacts.
pub mod igloo;
pub mod manifest;
pub mod project;
pub mod render;
pub mod target;
