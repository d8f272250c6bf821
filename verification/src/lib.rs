//! Verified core of the slicing engine's profile handling and planning helpers.

pub mod text;
pub mod field_map;
pub mod calendar;
pub mod config;
pub mod seam;
pub mod statistics;
pub mod support;
pub mod profile_import;
pub mod profile_import_ini;
pub mod profile_library;
pub mod profile_resolve;
