//! Auto-import resolution for UI components.
//!
//! A module may use a component without importing it. This library keeps the
//! index of the components that can be used so: those of the project
//! ([`find_local_components`]) and those of configured libraries
//! ([`resolvers`]), held together in [`component_index`]. From the index it
//! computes the imports that a module needs ([`insert_import`]) and the
//! ambient declarations that tell an editor of the components
//! ([`generate_dts`]). What it reads of files and modules is handed to it as
//! plain values, and what it writes it hands back as text.

pub mod component_index;
pub mod find_local_components;
pub mod generate_dts;
pub mod insert_import;
pub mod module_federation;
pub mod paths;
pub mod patterns;
pub mod resolvers;
pub mod text;
