//! Build-lifecycle normalization and deployment-record persistence.
pub mod text;
pub mod phase;
pub mod document;
pub mod errors;
pub mod fields;
pub mod commands;
pub mod clock;
pub mod project;
pub mod user;
pub mod codebuild;
pub mod deployment;
pub mod update;
pub mod response;
