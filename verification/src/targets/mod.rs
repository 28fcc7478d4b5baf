//! Code generation for particular target machines.

pub mod mcf5307;
