//! What a deployment fixes: where the service is reached, and whether a paste
//! may be kept for ever.

use vstd::prelude::*;

verus! {

/// The base URL of the service, from which absolute links are built.
pub const BASE_URL: &'static str = "https://pasta.zpfeiffer.com";

/// Whether a paste may be created without an expiry.
pub const ALLOW_NEVER_EXPIRE: bool = false;

/// The settings of one deployment.
#[derive(Clone, Debug, PartialEq, Eq)]
pub struct Config {
    /// The base URL, without a trailing slash.
    pub base_url: String,
    /// Whether "Never" is taken as an expiration.
    pub allow_never_expire: bool,
}

impl Default for Config {
    /// The settings of the public service.
    fn default() -> (config: Config)
        ensures
            config.base_url@ == BASE_URL@,
            config.allow_never_expire == ALLOW_NEVER_EXPIRE,
    {
        Config { base_url: String::from_str(BASE_URL), allow_never_expire: ALLOW_NEVER_EXPIRE }
    }
}

} // verus!
