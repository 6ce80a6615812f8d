//! The settings that the service is started with.

use vstd::prelude::*;

verus! {

/// Addresses and credentials of the collaborators.
#[derive(Debug, PartialEq, Eq)]
pub struct Config {
    pub mongo_uri: String,
    pub redis_uri: String,
    pub db_name: String,
    pub blockchain_api_base_uri: String,
    pub homepage_api_base_uri: String,
    pub transfer_scheduler_base_uri: String,
    pub aws_access_key: String,
    pub aws_secret_access_key: String,
    pub aws_bucket: String,
    pub aws_region: String,
    pub elasticsearch_uri: String,
}

} // verus!
