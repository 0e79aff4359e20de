//! Where the document store is and which database to use.
use vstd::prelude::*;

verus! {

/// The settings the service runs with.
pub struct Config {
    pub url: String,
    pub db_name: String,
    pub collection_name: String,
}

/// The settings as read, before the service takes them.
pub struct BuildConfig {
    pub url: String,
    pub db_name: String,
    pub collection_name: String,
}

impl BuildConfig {
    /// The settings, unchanged, as the service holds them.
    pub fn build(self) -> (r: Config)
        ensures
            r.url == self.url,
            r.db_name == self.db_name,
            r.collection_name == self.collection_name,
    {
        Config { url: self.url, db_name: self.db_name, collection_name: self.collection_name }
    }
}

} // verus!
