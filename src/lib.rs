//! Caching reverse proxy core for a public CDN mirror: path resolution,
//! origin-response inspection, cache-key derivation and the cache-aside
//! pipeline, all stated and proved with Verus.
pub mod command;
pub mod conf;
pub mod fetch;
pub mod key;
pub mod orchestrator;
pub mod request_id;
pub mod resolve;
pub mod response;
pub mod text;
pub mod time;
