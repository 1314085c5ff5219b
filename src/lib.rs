// A cache-aside layer between request handlers and an authoritative record store:
// key derivation, an in-process bounded cache with per-entry expiry, and the
// coordinator that orders store and cache steps, with the laws they obey.
pub mod cache_key;
pub mod memory_cache;
pub mod coordinator;
pub mod entity;
pub mod laws;
