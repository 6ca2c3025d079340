//! Per-language project support: program names, scaffolding steps, and how
//! each kind of manifest turns into a project's scripts.

pub mod dart;
pub mod go;
pub mod java;
pub mod ruby;
pub mod node;
pub mod php;
pub mod python;
