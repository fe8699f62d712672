//! Project scaffolding: a question schema is resolved into a flat context of
//! answers, and a template tree is classified and rendered against it.

pub mod text;
pub mod context;
pub mod schema;
pub mod rules;
pub mod engine;
pub mod classify;
pub mod template;
pub mod render;
pub mod source;
pub mod listing;
