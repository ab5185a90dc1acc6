//! Musical form analysis for multi-agent task decomposition.

pub mod section;
pub mod text;
pub mod form;
pub mod forms;
pub mod detect;
pub mod builder;
pub mod laws;
