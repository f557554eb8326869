//! Configuration of the file-to-clipboard polling client and its request
//! address.

use vstd::prelude::*;
use vstd::string::StringExecFns;

verus! {

/// Settings of the polling client.
#[derive(Debug)]
pub struct ClientConfig {
    /// Base address of the content server.
    pub http_address: String,
    /// Path of the content endpoint.
    pub endpoint: String,
    /// Seconds between two fetches.
    pub interval: u64,
    /// File whose content is fetched.
    pub file_path: String,
}

/// The full request address: the base address followed by the endpoint path.
pub fn build_url(config: &ClientConfig) -> (r: String)
    ensures
        r@ == config.http_address@ + config.endpoint@,
{
    let mut url = config.http_address.clone();
    url.append(config.endpoint.as_str());
    url
}

} // verus!
