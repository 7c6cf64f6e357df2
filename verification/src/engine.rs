//! The submission-queue data model shared with the surrounding engine.

pub mod models;
