//! A verified core for a transcode job pipeline.
//!
//! The library models the durable state of the pipeline — source videos and
//! their transcode jobs — as a small relational store with proved invariants
//! (unique ids, referential integrity), exposes the repository operations
//! `insert`, `find` and `update` with exact contracts, and drives a job
//! through the download / fragment / encode stages with a verified state
//! machine that persists every stage boundary and always hands back the full
//! set of working paths to clean up.

pub mod clock;
pub mod db;
pub mod domain;
pub mod error;
pub mod ids;
pub mod job_repository;
pub mod pipeline;
pub mod repository;
pub mod service;
pub mod video_repository;
