//! Building blocks for storage-backed services: an embedded column-family
//! key-value adapter, the options of relational backends, configuration
//! sources, and the traits of a cache layer and of a domain layer.
pub mod cache;
pub mod config;
pub mod domain;
pub mod mysql;
pub mod rocksdb;
pub mod sql;
pub mod storage;
