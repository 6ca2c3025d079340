//! Backend logic of a desktop launcher for developer projects: reading
//! project manifests, deciding which scripts a project offers, building the
//! steps that scaffold a new project, and keeping the small stores and
//! registries the launcher works with.

pub mod text;
pub mod output;
pub mod model;
pub mod platform;
pub mod common;
pub mod docs;
pub mod langs;
pub mod project;
pub mod runs;
pub mod stores;
pub mod prepare;
pub mod terminal;
pub mod search_path;
