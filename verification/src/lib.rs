//! A read-through caching facade over a remote system/member/group data API.
//!
//! Callers request an entity by key; the facade tries an ordered list of
//! sources and, on the first success, propagates the fetched value to a set
//! of observers (normally the in-memory store) so that subsequent lookups
//! hit memory instead of the network.

pub mod cache_view;
pub mod controller;
pub mod in_memory_cache;
pub mod models;
pub mod notifier;
pub mod origin_api;
pub mod provider;
pub mod table;
