//! Client configuration: the builders that collect the base URL, API key,
//! per-request timeout and retry allowance, and the settings a transport is
//! opened with.

use crate::transport::{endpoint_url, graphql_url, DEFAULT_MAX_RETRIES};
use std::time::Duration;
use vstd::prelude::*;

verus! {

/// What a transport is opened with.
#[derive(Debug, Clone)]
pub struct TransportSettings {
    /// The GraphQL endpoint requests are posted to.
    pub graphql_url: String,
    /// The bearer token sent with every request, when there is one.
    pub api_key: Option<String>,
    /// The per-request timeout, when one is set.
    pub timeout: Option<Duration>,
    /// Retries allowed after the first attempt of a request.
    pub max_retries: u32,
}

/// The settings a client for `base_url` with these options is opened with.
pub open spec fn settings_for(
    s: TransportSettings,
    base_url: Seq<char>,
    api_key: Option<String>,
    timeout: Option<Duration>,
    max_retries: u32,
) -> bool {
    &&& s.graphql_url@ == endpoint_url(base_url)
    &&& s.api_key == api_key
    &&& s.timeout == timeout
    &&& s.max_retries == max_retries
}

/// The settings of a client built without a builder: no timeout, and the
/// default retry allowance.
pub fn default_settings(base_url: &str, api_key: Option<String>) -> (s: TransportSettings)
    ensures
        settings_for(s, base_url@, api_key, None, DEFAULT_MAX_RETRIES),
{
    TransportSettings { graphql_url: graphql_url(base_url), api_key, timeout: None, max_retries: DEFAULT_MAX_RETRIES }
}

/// Builder for the blocking client when non-default options are required.
#[derive(Debug, Clone)]
pub struct HivehookClientBuilder {
    base_url: String,
    api_key: Option<String>,
    timeout: Option<Duration>,
    max_retries: u32,
}

impl HivehookClientBuilder {
    /// The base URL, without the `/graphql` suffix.
    pub closed spec fn base_url(&self) -> Seq<char> {
        self.base_url@
    }

    /// The API key.
    pub closed spec fn api_key(&self) -> Option<String> {
        self.api_key
    }

    /// The per-request timeout, when one is set.
    pub closed spec fn timeout_setting(&self) -> Option<Duration> {
        self.timeout
    }

    /// The retry allowance.
    pub closed spec fn retries(&self) -> u32 {
        self.max_retries
    }

    /// A builder for a client of `base_url` (without the `/graphql` suffix)
    /// with `api_key`: no timeout, and the default retry allowance of 2.
    pub fn new(base_url: String, api_key: Option<String>) -> (b: Self)
        ensures
            b.base_url() == base_url@,
            b.api_key() == api_key,
            b.timeout_setting() == None::<Duration>,
            b.retries() == DEFAULT_MAX_RETRIES,
    {
        HivehookClientBuilder { base_url, api_key, timeout: None, max_retries: DEFAULT_MAX_RETRIES }
    }

    /// Override the per-request timeout.
    pub fn timeout(self, timeout: Duration) -> (b: Self)
        ensures
            b.timeout_setting() == Some(timeout),
            b.base_url() == self.base_url(),
            b.api_key() == self.api_key(),
            b.retries() == self.retries(),
    {
        let mut b = self;
        b.timeout = Some(timeout);
        b
    }

    /// Override the maximum number of retry attempts (default 2). A value of
    /// `0` disables retries.
    pub fn max_retries(self, max_retries: u32) -> (b: Self)
        ensures
            b.retries() == max_retries,
            b.base_url() == self.base_url(),
            b.api_key() == self.api_key(),
            b.timeout_setting() == self.timeout_setting(),
    {
        let mut b = self;
        b.max_retries = max_retries;
        b
    }

    /// The settings the client is opened with.
    pub fn settings(self) -> (s: TransportSettings)
        ensures
            settings_for(s, self.base_url(), self.api_key(), self.timeout_setting(), self.retries()),
    {
        TransportSettings {
            graphql_url: graphql_url(self.base_url.as_str()),
            api_key: self.api_key,
            timeout: self.timeout,
            max_retries: self.max_retries,
        }
    }
}

/// Builder for the async client when non-default options are required.
#[derive(Debug, Clone)]
pub struct AsyncHivehookClientBuilder {
    base_url: String,
    api_key: Option<String>,
    timeout: Option<Duration>,
    max_retries: u32,
}

impl AsyncHivehookClientBuilder {
    /// The base URL, without the `/graphql` suffix.
    pub closed spec fn base_url(&self) -> Seq<char> {
        self.base_url@
    }

    /// The API key.
    pub closed spec fn api_key(&self) -> Option<String> {
        self.api_key
    }

    /// The per-request timeout, when one is set.
    pub closed spec fn timeout_setting(&self) -> Option<Duration> {
        self.timeout
    }

    /// The retry allowance.
    pub closed spec fn retries(&self) -> u32 {
        self.max_retries
    }

    /// A builder for a client of `base_url` (without the `/graphql` suffix)
    /// with `api_key`: no timeout, and the default retry allowance of 2.
    pub fn new(base_url: String, api_key: Option<String>) -> (b: Self)
        ensures
            b.base_url() == base_url@,
            b.api_key() == api_key,
            b.timeout_setting() == None::<Duration>,
            b.retries() == DEFAULT_MAX_RETRIES,
    {
        AsyncHivehookClientBuilder { base_url, api_key, timeout: None, max_retries: DEFAULT_MAX_RETRIES }
    }

    /// Override the per-request timeout.
    pub fn timeout(self, timeout: Duration) -> (b: Self)
        ensures
            b.timeout_setting() == Some(timeout),
            b.base_url() == self.base_url(),
            b.api_key() == self.api_key(),
            b.retries() == self.retries(),
    {
        let mut b = self;
        b.timeout = Some(timeout);
        b
    }

    /// Override the maximum number of retry attempts (default 2). A value of
    /// `0` disables retries.
    pub fn max_retries(self, max_retries: u32) -> (b: Self)
        ensures
            b.retries() == max_retries,
            b.base_url() == self.base_url(),
            b.api_key() == self.api_key(),
            b.timeout_setting() == self.timeout_setting(),
    {
        let mut b = self;
        b.max_retries = max_retries;
        b
    }

    /// The settings the client is opened with.
    pub fn settings(self) -> (s: TransportSettings)
        ensures
            settings_for(s, self.base_url(), self.api_key(), self.timeout_setting(), self.retries()),
    {
        TransportSettings {
            graphql_url: graphql_url(self.base_url.as_str()),
            api_key: self.api_key,
            timeout: self.timeout,
            max_retries: self.max_retries,
        }
    }
}

} // verus!
