//! The verified core of a terminal to-do list.

pub mod app;
pub mod filter;
pub mod geometry;
pub mod input;
pub mod key_laws;
pub mod laws;
pub mod model;
pub mod paint;
pub mod screen;
pub mod screen_laws;
pub mod storage;
pub mod task;
pub mod text;
