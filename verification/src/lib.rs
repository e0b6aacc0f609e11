//! A verified client library for a paginated resource catalog.
//!
//! The library fetches collections of records (planets, people, films,
//! species, starships, vehicles) from a remote catalog through an injected
//! transport capability, decodes the JSON bodies into typed records, and
//! caches every record in memory keyed by its canonical resource URL.
//! The cache-and-fetch coordination, the per-kind sorted storage, and the
//! decoding of the wire format are verified; the transport itself and the
//! JSON tokenizer are trusted collaborators behind narrow contracts.

pub mod api_client;
pub mod api_error;
pub mod decimal;
pub mod fetchable;
pub mod http_client;
pub mod json;
pub mod list_items;
pub mod models;
pub mod order;
pub mod repository;
pub mod selected;
pub mod store;
