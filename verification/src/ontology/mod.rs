//! Agent ontology: action descriptions.

pub mod action;
pub mod agent;
pub mod json;

pub use action::{ActionParam, ActionParamType, AgentAction};
