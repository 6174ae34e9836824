//! Static service configuration, as plain values.
//!
//! Durations are held as whole seconds and file locations as plain paths in
//! text; loading the configuration from files or the environment is the
//! host's concern.

use vstd::prelude::*;
use vstd::string::StrSliceExecFns;
use vstd::string::StringExecFns;

verus! {

/// The base address with every trailing `/` dropped.
pub open spec fn trim_slash_back(s: Seq<char>) -> Seq<char>
    decreases s.len(),
{
    if s.len() > 0 && s.last() == '/' {
        trim_slash_back(s.drop_last())
    } else {
        s
    }
}

proof fn lemma_trim_slash_back_at(s: Seq<char>, e: int)
    requires
        0 <= e <= s.len(),
        forall|j: int| e <= j < s.len() ==> s[j] == '/',
        e == 0 || s[e - 1] != '/',
    ensures
        trim_slash_back(s) =~= s.subrange(0, e),
    decreases s.len() - e,
{
    if e == s.len() {
        assert(s.subrange(0, s.len() as int) =~= s);
    } else {
        let t = s.drop_last();
        lemma_trim_slash_back_at(t, e);
        assert(t.subrange(0, e) =~= s.subrange(0, e));
    }
}

#[derive(Debug)]
pub struct ServerConfig {
    pub host: String,
    pub port: u16,
    pub sse_buffer: usize,
    pub tls: Option<TlsConfig>,
}

impl ServerConfig {
    pub fn default_host() -> (r: String)
        ensures
            r@ == "127.0.0.1"@,
    {
        "127.0.0.1".to_owned()
    }

    pub fn default_port() -> (r: u16)
        ensures
            r == 8080,
    {
        8080
    }

    pub fn default_sse_buffer() -> (r: usize)
        ensures
            r == 1024,
    {
        1024
    }
}

#[derive(Debug)]
pub struct TlsConfig {
    pub cert_path: String,
    pub key_path: String,
}

#[derive(Debug)]
pub struct DatabaseConfig {
    pub url: String,
    pub pool_size: usize,
}

impl DatabaseConfig {
    pub fn default_pool_size() -> (r: usize)
        ensures
            r == 10,
    {
        10
    }
}

#[derive(Debug)]
pub struct OpaConfig {
    pub base_url: String,
    pub policy_path: String,
    pub cache_ttl_seconds: u64,
}

impl OpaConfig {
    pub fn default_cache_ttl_seconds() -> (r: u64)
        ensures
            r == 30,
    {
        30
    }

    /// How long a policy decision may be served from cache, in seconds.
    pub fn cache_ttl(&self) -> (r: u64)
        ensures
            r == self.cache_ttl_seconds,
    {
        self.cache_ttl_seconds
    }

    /// The address policy queries are posted to: the base address without
    /// trailing slashes, the data prefix, and the policy path.
    pub fn policy_url(&self) -> (r: String)
        ensures
            r@ == trim_slash_back(self.base_url@) + "/v1/data"@ + self.policy_path@,
    {
        let n: usize = self.base_url.as_str().unicode_len();
        let mut end: usize = n;
        while end > 0 && self.base_url.as_str().get_char(end - 1) == '/'
            invariant
                0 <= end <= n,
                n == self.base_url@.len(),
                forall|j: int| end <= j < n ==> self.base_url@[j] == '/',
            decreases end,
        {
            end = end - 1;
        }
        proof {
            lemma_trim_slash_back_at(self.base_url@, end as int);
        }
        let base: &str = self.base_url.as_str().substring_char(0, end);
        base.to_owned().concat("/v1/data").concat(self.policy_path.as_str())
    }
}

#[derive(Debug)]
pub struct IggyConfig {
    pub connection_string: String,
    pub stream: String,
    pub topic: String,
    pub batch_size: u32,
    pub linger_ms: u64,
}

impl IggyConfig {
    pub fn default_stream() -> (r: String)
        ensures
            r@ == "app_stream"@,
    {
        "app_stream".to_owned()
    }

    pub fn default_topic() -> (r: String)
        ensures
            r@ == "outbox"@,
    {
        "outbox".to_owned()
    }

    pub fn default_batch_size() -> (r: u32)
        ensures
            r == 64,
    {
        64
    }

    pub fn default_linger_ms() -> (r: u64)
        ensures
            r == 5,
    {
        5
    }
}

#[derive(Debug)]
pub struct RestateConfig {
    pub workflow_bind_address: String,
    pub ingress_url: String,
    pub namespace: String,
}

impl RestateConfig {
    pub fn default_namespace() -> (r: String)
        ensures
            r@ == "default"@,
    {
        "default".to_owned()
    }
}

#[derive(Debug)]
pub struct TelemetryConfig {
    pub service_name: String,
    pub otlp_endpoint: Option<String>,
    pub log_json: bool,
}

impl TelemetryConfig {
    pub fn default_service_name() -> (r: String)
        ensures
            r@ == "realworld-rust-axum-leptos"@,
    {
        "realworld-rust-axum-leptos".to_owned()
    }
}

/// Configuration of the signed-request verifier: the enabled flag, an
/// optional pinned key id, the key entries as `"<id>:<base64>"` text, and the
/// clock-skew tolerance in whole seconds.
#[derive(Debug)]
pub struct SecurityConfig {
    pub enabled: bool,
    pub required_key_id: Option<String>,
    pub ed25519_public_keys: Vec<String>,
    pub clock_skew_tolerance_secs: u64,
}

impl SecurityConfig {
    pub fn default_skew() -> (r: u64)
        ensures
            r == 5,
    {
        5
    }
}

#[derive(Debug)]
pub struct AppConfig {
    pub server: ServerConfig,
    pub database: DatabaseConfig,
    pub opa: OpaConfig,
    pub iggy: IggyConfig,
    pub restate: RestateConfig,
    pub telemetry: TelemetryConfig,
    pub security: SecurityConfig,
}

} // verus!
