//! Joins: the statements that follow a branch and do not depend on it, behind the branch.
pub mod context;
pub mod cost;
pub mod cut;
pub mod detect;
pub mod environment;
pub mod plan;
pub mod rename;
