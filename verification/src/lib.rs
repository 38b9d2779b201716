//! Text extraction from a single image: words are located, grouped into
//! lines in reading order, and each line is read.

pub mod args;
pub mod engine;
pub mod error;
pub mod filter;
pub mod models;
pub mod picture;
pub mod pipeline;
pub mod run;
