//! Ingestion and normalization of order-book offers read from a Horizon
//! ledger-query service: a strict asset parser, offer construction with
//! validation, and the page and request model of the offers listing.

pub mod asset;
pub mod client;
pub mod config;
pub mod horizon;
pub mod json;
pub mod offer;
pub mod text;
