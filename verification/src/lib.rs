//! Windowed browsing of tabular datasets.

pub mod control;
pub mod engine;
pub mod error;
pub mod file_utils;
pub mod models;
pub mod render;
pub mod sampling;
pub mod text;
pub mod window;
