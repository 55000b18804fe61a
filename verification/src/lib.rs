//! Synthesis of a throw-away build project around loose source files:
//! directive extraction, cache naming, manifest assembly, source layout
//! and the decisions of a run.

pub mod text;
pub mod directive;
pub mod digest;
pub mod edition;
pub mod error;
pub mod opt;
pub mod manifest;
pub mod project;
pub mod sources;
pub mod run;
pub mod validate;
