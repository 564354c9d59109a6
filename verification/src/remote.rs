//! Options that point the commands at a remote AWS account or at a TLS endpoint.
use vstd::prelude::*;

verus! {

/// `1` when the condition holds, else `0`.
pub closed spec fn flag(b: bool) -> int {
    if b {
        1
    } else {
        0
    }
}

/// `flag` is `1` on `true` and `0` on `false`.
pub proof fn lemma_flag(b: bool)
    ensures
        flag(b) == (if b {
            1int
        } else {
            0int
        }),
{
}

/// `1usize` when the condition holds, else `0usize`.
pub fn flag_count(b: bool) -> (res: usize)
    ensures
        res == flag(b),
        res <= 1,
{
    if b {
        1
    } else {
        0
    }
}

/// Options of the AWS account that the commands act on.
#[derive(Debug, Clone)]
pub struct RemoteConfig {
    /// AWS configuration profile to use for authorization.
    pub profile: Option<String>,
    /// AWS region to deploy to, if there is no default.
    pub region: Option<String>,
    /// Lambda alias to associate the function with.
    pub alias: Option<String>,
    /// Number of attempts for failed operations.
    pub retry_attempts: Option<u32>,
    /// Custom endpoint URL to target.
    pub endpoint_url: Option<String>,
}

impl RemoteConfig {
    /// No options set.
    pub fn default() -> (res: RemoteConfig)
        ensures
            res.profile is None,
            res.region is None,
            res.alias is None,
            res.retry_attempts is None,
            res.endpoint_url is None,
    {
        RemoteConfig {
            profile: None,
            region: None,
            alias: None,
            retry_attempts: None,
            endpoint_url: None,
        }
    }

    /// How many attempts a failed operation gets: the configured number, else one.
    pub fn max_attempts(&self) -> (res: u32)
        ensures
            res == match self.retry_attempts {
                Some(n) => n,
                None => 1,
            },
    {
        match self.retry_attempts {
            Some(n) => n,
            None => 1,
        }
    }

    /// How many of the options are set.
    pub fn count_fields(&self) -> (res: usize)
        ensures
            res == flag(self.profile is Some) + flag(self.region is Some) + flag(
                self.alias is Some,
            ) + flag(self.retry_attempts is Some) + flag(self.endpoint_url is Some),
            res <= 5,
    {
        flag_count(self.profile.is_some()) + flag_count(self.region.is_some()) + flag_count(
            self.alias.is_some(),
        ) + flag_count(self.retry_attempts.is_some()) + flag_count(self.endpoint_url.is_some())
    }
}

/// Paths of the files that secure a local endpoint with TLS.
#[derive(Debug, Clone)]
pub struct TlsOptions {
    /// Path to a TLS certificate file.
    pub tls_cert: Option<String>,
    /// Path to a TLS key file.
    pub tls_key: Option<String>,
    /// Path to a TLS CA file.
    pub tls_ca: Option<String>,
}

impl TlsOptions {
    /// Whether both a certificate and a key are given.
    pub fn is_secure(&self) -> (res: bool)
        ensures
            res == (self.tls_cert is Some && self.tls_key is Some),
    {
        self.tls_cert.is_some() && self.tls_key.is_some()
    }
}

} // verus!
