//! Per-collection request logic and route tables.

pub mod books;
pub mod games;
pub mod misc;
pub mod projects;
pub mod reviews;
pub mod search;
