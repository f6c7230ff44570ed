//! Builds the documentation model of an API from its OpenAPI description
//! and converts the markdown of its descriptions to LaTeX markup.
//!
//! The description reaches the library as a [`node::Node`] tree.
//! [`model::Documentation::new`] walks it and returns the model, which
//! holds plain strings ready for a template; for a tree that may lack
//! what every description has, [`model::Documentation::try_new`] does the
//! same and says so. On the way [`types`] finds the type name to show for
//! a schema, [`names`] shortens namespaced names and [`markdown`] converts
//! free text.
pub mod text;
pub mod names;
pub mod node;
pub mod types;
pub mod pattern;
pub mod markdown;
pub mod model;
pub mod builder;
pub mod document;
pub mod swaggerhub;
