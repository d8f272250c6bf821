//! Support structure settings and decisions.

pub mod config;
pub mod conflict;
pub mod interface;
pub mod overhang_perimeter;
pub mod override_system;
