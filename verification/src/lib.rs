//! Builds template evaluation trees from parsed template expressions.

pub mod build_context;
pub mod build_model;
pub mod evaluation;
pub mod laws;
pub mod scope;
pub mod template_builder;
pub mod template_function;
pub mod template_language;
pub mod template_parser;
pub mod template_property;
pub mod templater;
pub mod text_util;
