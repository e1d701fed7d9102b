pub mod text;
pub mod words;
pub mod decimal;
pub mod error;
pub mod cli;
pub mod outside;
pub mod github;
pub mod strategy;
pub mod executor;
pub mod progress;
pub mod bars;
pub mod resume;
pub mod pipeline;
pub mod config;
pub mod lfs;
pub mod batch;
pub mod aria2c;
pub mod benchmark;
pub mod dashboard;
