//! Crawl-and-pipeline engine for real-estate listings.
//!
//! Listing pages are turned into [`models::Property`] records by the
//! crawlers, spread over workers by the scheduler and then run through the
//! filter, enrich and observe stages of the pipeline.

pub mod activation;
pub mod configuration;
pub mod crawlers;
pub mod enrichers;
pub mod filters;
pub mod models;
pub mod observers;
pub mod pattern;
pub mod pipeline;
pub mod scheduler;
pub mod text;
