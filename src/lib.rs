//! Audits a project directory against declarative checklists, with a
//! content-addressed result cache.

pub mod cache;
pub mod cli;
pub mod command;
pub mod encode;
pub mod env;
pub mod evaluate;
pub mod hashing;
pub mod keyed;
pub mod model;
pub mod project;
pub mod remote;
pub mod settings;
pub mod status;
pub mod text;
