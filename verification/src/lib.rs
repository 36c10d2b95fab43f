//! A verified core for a host-telemetry HTTP service: a refresh-gated
//! snapshot cache that bounds how often the expensive metrics provider runs,
//! and the freshness headers (`Cache-Control`, `Last-Modified`) derived from
//! the same cache state.

pub mod cache;
pub mod cache_control;
pub mod config;
pub mod errors;
pub mod http_client;
pub mod last_modified;
pub mod metrics;
pub mod pipeline;
pub mod theme;
pub mod timeout;
