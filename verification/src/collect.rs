//! The tallies computed over the recorded results of many crates.
pub mod source_summary;
pub mod tallies;
pub mod dependencies;
pub mod rows;
