//! Renders a user's public activity feed as human-readable lines.
//!
//! The library holds the verified logic: decoding event records from a
//! fetched response body, classifying HTTP status codes, and rendering
//! each record as one line of text. The surrounding program performs the
//! actual network request and printing.

pub mod cli;
pub mod errors;
pub mod fetch;
pub mod models;
pub mod render;
pub mod text;
