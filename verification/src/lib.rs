//! A scaffolding engine for new Arch project workspaces.
//!
//! Given a project name and a template variant, the library computes a
//! `ScaffoldPlan`: the exact set of directories and rendered files that make
//! up the new workspace. The plan is pure data; writing it to disk is left to
//! the caller, so the safety rules around creation (name validation, the
//! "target must not already exist" precondition) are all checked here.

pub mod errors;
pub mod plan;
pub mod project;
pub mod registry;
pub mod template;
