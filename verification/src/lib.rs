//! Page-route resolution for a small catalog website.
//!
//! The crate loads an ordered registry of logical pages from a declarative
//! page-list document, resolves request paths against that registry with a
//! static-file fallback, and derives per-request rendering contexts from
//! process-wide configuration and the live request.

pub mod config;
pub mod page_map;
pub mod resolve;
pub mod templates;
