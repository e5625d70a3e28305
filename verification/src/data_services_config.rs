//! The configuration surface: four connection values supplied once at
//! startup and immutable thereafter.

use vstd::prelude::*;

verus! {

/// Connection configuration for the store and the cache.
///
/// The caller supplies the four values (for instance from its environment)
/// once at process startup; this layer never changes them.
#[derive(Debug)]
pub struct DataServicesConfig {
    /// The store database name.
    pub db_database: String,
    /// The client application name reported to the store.
    pub db_app_name: String,
    /// The store connection string.
    pub db_uri: String,
    /// The cache connection string.
    pub cache_uri: String,
}

impl Clone for DataServicesConfig {
    fn clone(&self) -> (r: Self)
        ensures
            r == *self,
    {
        DataServicesConfig {
            db_database: self.db_database.clone(),
            db_app_name: self.db_app_name.clone(),
            db_uri: self.db_uri.clone(),
            cache_uri: self.cache_uri.clone(),
        }
    }
}

impl DataServicesConfig {
    /// Bundles the four connection values.
    pub fn new(db_database: String, db_app_name: String, db_uri: String, cache_uri: String) -> (r:
        Self)
        ensures
            r.db_database@ == db_database@,
            r.db_app_name@ == db_app_name@,
            r.db_uri@ == db_uri@,
            r.cache_uri@ == cache_uri@,
    {
        Self { db_database, db_app_name, db_uri, cache_uri }
    }
}

} // verus!
