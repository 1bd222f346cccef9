//! Core of a project-scaffolding engine: the variable store shared by
//! templates and scripts, the conversion of script values into it, the
//! template filters, the rendering policy and the per-entry decisions of the
//! walk over a template tree.
pub mod error;
pub mod value;
pub mod script;
pub mod context;
pub mod project;
pub mod filters;
pub mod render;
pub mod engine;
pub mod walk;
