//! Core of a gallery downloader: extracts media references from crawled
//! page documents of one hosting site, reconstructs asset URLs from
//! thumbnail markers, and decides a resilient download schedule — bounded
//! retries with exponential backoff, a minimum-throughput guard,
//! cooperative cancellation, a shared progress record, and a cleanup
//! selection for truncated outputs. Fetching pages, streaming bodies and
//! touching the disk stay with the caller, which hands in plain values.

pub mod cleanup;
pub mod controller;
pub mod extract;
pub mod paths;
pub mod printer;
pub mod progress;
pub mod retry;
pub mod speed;
pub mod text;
pub mod urls;
