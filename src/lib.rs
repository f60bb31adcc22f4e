//! Offline-capable license verification: signed server responses, a
//! re-verified daily response cache, and encrypted machine files.
use vstd::prelude::*;

pub mod client;
pub mod crypto;
pub mod err;
pub mod licensed;
pub mod machine;
pub mod text;

use client::KeygenClient;

verus! {

/// The default API host.
pub const DEFAULT_API_URL: &'static str = "https://api.keygen.sh";

/// The default cache lifetime, in minutes.
pub const DEFAULT_CACHE_LIFETIME: i64 = 240;

/// The shortest cache lifetime that can be set, in minutes.
pub const MIN_CACHE_LIFETIME: i64 = 60;

/// The longest cache lifetime that can be set, in minutes (one day).
pub const MAX_CACHE_LIFETIME: i64 = 1440;

/// The configuration of license verification.
#[derive(Debug, Clone)]
pub struct Builder {
    pub custom_domain: Option<String>,
    pub api_url: Option<String>,
    pub account_id: Option<String>,
    /// Hex-encoded Ed25519 public key of the server.
    pub verify_key: String,
    pub version_header: Option<String>,
    /// How long a cached response stands in for the server, in minutes.
    pub cache_lifetime: i64,
}

impl Builder {
    /// A configuration for an account on the default API host.
    pub fn new(account_id: String, verify_key: String) -> (r: Self)
        ensures
            r.custom_domain is None,
            r.api_url matches Some(u) && u@ == DEFAULT_API_URL@,
            r.account_id == Some(account_id),
            r.verify_key == verify_key,
            r.version_header is None,
            r.cache_lifetime == DEFAULT_CACHE_LIFETIME,
    {
        Builder {
            custom_domain: None,
            api_url: Some(DEFAULT_API_URL.to_owned()),
            account_id: Some(account_id),
            verify_key,
            version_header: None,
            cache_lifetime: DEFAULT_CACHE_LIFETIME,
        }
    }

    /// A configuration for a custom domain, which needs no account.
    pub fn with_custom_domain(custom_domain: String, verify_key: String) -> (r: Self)
        ensures
            r.custom_domain == Some(custom_domain),
            r.api_url is None,
            r.account_id is None,
            r.verify_key == verify_key,
            r.version_header is None,
            r.cache_lifetime == DEFAULT_CACHE_LIFETIME,
    {
        Builder {
            custom_domain: Some(custom_domain),
            account_id: None,
            api_url: None,
            verify_key,
            version_header: None,
            cache_lifetime: DEFAULT_CACHE_LIFETIME,
        }
    }

    /// Sets the API host; ignored when a custom domain is set.
    pub fn api_url(self, api_url: String) -> (r: Self)
        ensures
            r.api_url == (if self.custom_domain is None {
                Some(api_url)
            } else {
                self.api_url
            }),
            r.custom_domain == self.custom_domain,
            r.account_id == self.account_id,
            r.verify_key == self.verify_key,
            r.version_header == self.version_header,
            r.cache_lifetime == self.cache_lifetime,
    {
        let mut b = self;
        if b.custom_domain.is_none() {
            b.api_url = Some(api_url);
        }
        b
    }

    /// Sets the API version header.
    pub fn version_header(self, version_header: String) -> (r: Self)
        ensures
            r.version_header == Some(version_header),
            r.custom_domain == self.custom_domain,
            r.api_url == self.api_url,
            r.account_id == self.account_id,
            r.verify_key == self.verify_key,
            r.cache_lifetime == self.cache_lifetime,
    {
        let mut b = self;
        b.version_header = Some(version_header);
        b
    }

    /// Sets the cache lifetime, clamped to one hour .. one day.
    pub fn cache_lifetime(self, cache_lifetime: i64) -> (r: Self)
        ensures
            r.cache_lifetime == (if cache_lifetime < MIN_CACHE_LIFETIME {
                MIN_CACHE_LIFETIME
            } else if cache_lifetime > MAX_CACHE_LIFETIME {
                MAX_CACHE_LIFETIME
            } else {
                cache_lifetime
            }),
            r.custom_domain == self.custom_domain,
            r.api_url == self.api_url,
            r.account_id == self.account_id,
            r.verify_key == self.verify_key,
            r.version_header == self.version_header,
    {
        let mut b = self;
        b.cache_lifetime = if cache_lifetime < MIN_CACHE_LIFETIME {
            MIN_CACHE_LIFETIME
        } else if cache_lifetime > MAX_CACHE_LIFETIME {
            MAX_CACHE_LIFETIME
        } else {
            cache_lifetime
        };
        b
    }

    /// The verification settings this configuration describes.
    pub fn keygen_client(&self) -> (r: KeygenClient)
        ensures
            r.custom_domain == self.custom_domain,
            r.api_url == self.api_url,
            r.account_id == self.account_id,
            r.verify_key == self.verify_key,
            r.cache_lifetime == self.cache_lifetime,
            r.api_version == 1,
            r.max_clock_drift == 5,
    {
        KeygenClient::new(
            self.custom_domain.clone(),
            self.api_url.clone(),
            self.account_id.clone(),
            self.verify_key.clone(),
            self.cache_lifetime,
        )
    }
}

} // verus!
