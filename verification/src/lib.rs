//! Multi-engine QR code scanning library.
//!
//! The library preprocesses a raster image into several grayscale variants,
//! runs a set of independent decoding engines over every variant, merges the
//! decoded payloads into one deduplicated result set, and classifies decoding
//! failures into a fixed diagnostic vocabulary with remediation hints.

pub mod analyzer;
pub mod engines;
pub mod imgio;
pub mod preprocessor;
pub mod scanner;
pub mod strutil;
pub mod timer;
