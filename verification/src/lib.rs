//! A persistence-orchestration library: a document store and a key-value
//! cache combined under a cache-aside discipline, for record types that
//! declare their own identity and cache-placement metadata.
//!
//! The store is the source of truth; the cache is a TTL-bounded derived
//! view.  Orchestrated operations always mutate the store first and only
//! then touch the cache, so a cache entry can only ever have been derived
//! from a value that was persisted at the time it was written.

pub mod cache;
pub mod cacheable;
pub mod codec;
pub mod dao_error;
pub mod data_services;
pub mod data_services_config;
pub mod db;
pub mod laws;
pub mod persistable;
pub mod record;
pub mod records;

pub use cache::Cache;
pub use cacheable::Cacheable;
pub use dao_error::DaoError;
pub use dao_error::DaoResult;
pub use data_services::DataServices;
pub use data_services_config::DataServicesConfig;
pub use db::DB;
pub use persistable::Persistable;
pub use record::CachedRecord;
pub use record::Record;
pub use records::DemoStruct;
