//! A client library for a competitive-programming judge: the submission
//! result model and the incremental renderer of per-case grading progress.

pub mod api;
pub mod cases;
pub mod config;
pub mod languages;
pub mod progress;
pub mod render;
pub mod submission;
pub mod text;
