//! Decides which executable serves as the Noir language server for a project,
//! with which arguments and environment, and states every decision as a
//! verified contract.

pub mod config;
pub mod environment;
pub mod host;
pub mod labels;
pub mod launch;
pub mod laws;
pub mod locator;
pub mod project;
pub mod resolver;
pub mod search_path;
pub mod selector;
pub mod status;
pub mod substring;
pub mod tool;
