//! Resilient multi-node download core: a failover request layer over an
//! ordered list of API endpoints, a counting request gate, a token-bucket
//! rate limiter, a windowed chapter-fetch pipeline that preserves input
//! order, and a batch orchestrator that reports one result per job.
pub mod api;
pub mod batch;
pub mod config;
pub mod downloader;
pub mod error;
pub mod export;
pub mod rate_limiter;
pub mod search;
pub mod strutil;
