//! Scaffolding of infrastructure-as-code projects.

pub mod conduct;
pub mod dev_skill;
pub mod environments;
pub mod framework;
pub mod in_memory;
pub mod laws;
pub mod layout;
pub mod location;
pub mod machine;
pub mod manifest;
pub mod reruns;
pub mod templates;
pub mod text;
pub mod views;
