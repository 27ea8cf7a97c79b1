//! Discover and verify RSS feed URLs for Steam games.
//!
//! The crate turns raw inputs (numeric AppIDs, store URLs, community user
//! identifiers) into feed candidates, optionally verifies each candidate
//! against HTTP responses, and renders the surviving feeds.

pub mod text;
pub mod urls;
pub mod extract;
pub mod scrape;
pub mod feed;
pub mod verify;
pub mod output;
pub mod pipeline;
