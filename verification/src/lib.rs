//! Configuration ingestion for a game-ROM archive manager.
//!
//! Given the declarative configuration document found in an archive root, the
//! library validates its structure against a fixed schema and materializes one
//! typed [`System`] descriptor per game platform, or fails with a precise,
//! labeled error.
//!
//! The library itself performs no I/O: the surrounding application reads the
//! configuration text and answers the path-existence queries that
//! [`read_config`] asks for, so every validation decision here is verified.

pub mod doc;
pub mod error;
pub mod loader;
mod parse;
pub mod system;

pub use doc::DocValue;
pub use error::ConfigError;
pub use error::ConfigErrorView;
pub use loader::read_config;
pub use loader::resolve_plan;
pub use loader::plan_config;
pub use loader::plan_from_doc;
pub use loader::EntryPlan;
pub use loader::LoadStep;
pub use loader::PlanItemView;
pub use loader::StepView;

pub use system::ColoredText;
pub use system::Rgb;
pub use system::System;
pub use system::SystemView;
