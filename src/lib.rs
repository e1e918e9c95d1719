//! Matching engine and review state machine for reconciling scanned music
//! files against candidate metadata records.

pub mod similarity;
pub mod matcher;
pub mod metadata;
pub mod app;
