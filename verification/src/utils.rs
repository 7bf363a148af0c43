//! The three stages of a run: probing, keeping the timelines, and preparing
//! the page.

pub mod checks;
pub mod config;
pub mod templates;
