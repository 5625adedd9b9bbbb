use vstd::prelude::*;

verus! {

/// The settings the services read from the environment: the database URL, the object
/// store's bucket, keys, region and endpoint, and the vector collection.
#[derive(Debug, Clone, PartialEq, Eq)]
pub struct EnvConfig {
    pub database: String,
    pub storage_bucket: String,
    pub storage_access_key: String,
    pub storage_secret_key: String,
    pub storage_region: String,
    pub storage_endpoint: String,
    pub qdrant_collection: String,
}

/// The message for the first missing setting, in the order the settings are read:
/// `DATABASE_URL`, `STORAGE_BUCKET`, `STORAGE_ACCESS_KEY`, `STORAGE_SECRET_KEY`,
/// `STORAGE_ENDPOINT`, `STORAGE_REGION`, `QDRANT_COLLECTION`.
pub open spec fn first_missing_setting(
    database: Option<String>,
    storage_bucket: Option<String>,
    storage_access_key: Option<String>,
    storage_secret_key: Option<String>,
    storage_endpoint: Option<String>,
    storage_region: Option<String>,
    qdrant_collection: Option<String>,
) -> Option<Seq<char>> {
    if database is None {
        Some("database is not set"@)
    } else if storage_bucket is None {
        Some("storage bucket is not set"@)
    } else if storage_access_key is None {
        Some("storage access key is not set"@)
    } else if storage_secret_key is None {
        Some("storage secret key is not set"@)
    } else if storage_endpoint is None {
        Some("storage endpoint is not set"@)
    } else if storage_region is None {
        Some("storage region is not set"@)
    } else if qdrant_collection is None {
        Some("qdrant collection is not set"@)
    } else {
        None
    }
}

impl EnvConfig {
    /// Builds the settings from the values read (`None` for one that is not set); when one is
    /// missing, answers the message for the first missing one instead.
    pub fn from_values(
        database: Option<String>,
        storage_bucket: Option<String>,
        storage_access_key: Option<String>,
        storage_secret_key: Option<String>,
        storage_endpoint: Option<String>,
        storage_region: Option<String>,
        qdrant_collection: Option<String>,
    ) -> (r: Result<EnvConfig, String>)
        ensures
            match first_missing_setting(
                database,
                storage_bucket,
                storage_access_key,
                storage_secret_key,
                storage_endpoint,
                storage_region,
                qdrant_collection,
            ) {
                Some(m) => r matches Err(x) && x@ == m,
                None => r == Ok::<EnvConfig, String>(
                    EnvConfig {
                        database: database->0,
                        storage_bucket: storage_bucket->0,
                        storage_access_key: storage_access_key->0,
                        storage_secret_key: storage_secret_key->0,
                        storage_region: storage_region->0,
                        storage_endpoint: storage_endpoint->0,
                        qdrant_collection: qdrant_collection->0,
                    },
                ),
            },
    {
        let database = match database {
            Some(v) => v,
            None => return Err(String::from_str("database is not set")),
        };
        let storage_bucket = match storage_bucket {
            Some(v) => v,
            None => return Err(String::from_str("storage bucket is not set")),
        };
        let storage_access_key = match storage_access_key {
            Some(v) => v,
            None => return Err(String::from_str("storage access key is not set")),
        };
        let storage_secret_key = match storage_secret_key {
            Some(v) => v,
            None => return Err(String::from_str("storage secret key is not set")),
        };
        let storage_endpoint = match storage_endpoint {
            Some(v) => v,
            None => return Err(String::from_str("storage endpoint is not set")),
        };
        let storage_region = match storage_region {
            Some(v) => v,
            None => return Err(String::from_str("storage region is not set")),
        };
        let qdrant_collection = match qdrant_collection {
            Some(v) => v,
            None => return Err(String::from_str("qdrant collection is not set")),
        };
        Ok(
            EnvConfig {
                database,
                storage_bucket,
                storage_access_key,
                storage_secret_key,
                storage_region,
                storage_endpoint,
                qdrant_collection,
            },
        )
    }
}

} // verus!
