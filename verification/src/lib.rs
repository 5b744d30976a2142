//! Verified decision logic for fetching signed binary releases and for
//! rendering package-manager progress.

pub mod text;
pub mod release;
pub mod asset;
pub mod loader;
pub mod progress;
pub mod binary_repo;
pub mod download;
