use vstd::prelude::*;
use vstd::string::*;
use crate::fetch::RetryPolicy;

verus! {

/// A success response whose body is shorter than this is treated as a
/// suspected block or challenge page.
pub const MIN_CONTENT_LENGTH: usize = 1000;

/// The crawl configuration: concurrency bound, timeouts, the retry budget
/// and backoff base, the output directory, and the optional proxy list.
#[derive(Clone, Debug)]
pub struct Config {
    pub bot_name: String,
    pub concurrent_requests: usize,
    pub robotstxt_obey: bool,
    pub output_dir: String,
    pub user_agent: String,
    pub request_timeout: u64,
    pub max_retries: u32,
    pub retry_delay_ms: u64,
    pub proxies: Vec<String>,
    pub proxy_rotation_enabled: bool,
}

impl Default for Config {
    /// The stock configuration: one request at a time, three retries with
    /// a one-second backoff base, a thirty-second timeout, and no proxies.
    fn default() -> (c: Config)
        ensures
            c.bot_name@ == "linkedin"@,
            c.concurrent_requests == 1,
            c.robotstxt_obey == false,
            c.output_dir@ == "data"@,
            c.request_timeout == 30,
            c.max_retries == 3,
            c.retry_delay_ms == 1000,
            c.proxies@ =~= Seq::<String>::empty(),
            c.proxy_rotation_enabled == false,
    {
        Config {
            bot_name: String::from_str("linkedin"),
            concurrent_requests: 1,
            robotstxt_obey: false,
            output_dir: String::from_str("data"),
            user_agent: String::from_str(
                "Mozilla/5.0 (Windows NT 10.0; Win64; x64) AppleWebKit/537.36 (KHTML, like Gecko) Chrome/91.0.4472.124 Safari/537.36",
            ),
            request_timeout: 30,
            max_retries: 3,
            retry_delay_ms: 1000,
            proxies: Vec::new(),
            proxy_rotation_enabled: false,
        }
    }
}

impl Config {
    /// Whether a usable proxy list is configured.
    pub fn has_proxies(&self) -> (r: bool)
        ensures
            r == (self.proxies@.len() > 0),
    {
        self.proxies.len() > 0
    }

    /// How many proxies are configured.
    pub fn proxy_count(&self) -> (r: usize)
        ensures
            r == self.proxies@.len(),
    {
        self.proxies.len()
    }

    /// The retry policy this configuration asks the fetcher to follow.
    pub fn retry_policy(&self) -> (p: RetryPolicy)
        ensures
            p.max_retries == self.max_retries,
            p.base_delay_ms == self.retry_delay_ms,
            p.min_content_len == MIN_CONTENT_LENGTH,
    {
        RetryPolicy {
            max_retries: self.max_retries,
            base_delay_ms: self.retry_delay_ms,
            min_content_len: MIN_CONTENT_LENGTH,
        }
    }

    /// A field-for-field copy.
    pub fn duplicate(&self) -> (c: Config)
        ensures
            c.bot_name == self.bot_name,
            c.concurrent_requests == self.concurrent_requests,
            c.robotstxt_obey == self.robotstxt_obey,
            c.output_dir == self.output_dir,
            c.user_agent == self.user_agent,
            c.request_timeout == self.request_timeout,
            c.max_retries == self.max_retries,
            c.retry_delay_ms == self.retry_delay_ms,
            c.proxies@ =~= self.proxies@,
            c.proxy_rotation_enabled == self.proxy_rotation_enabled,
    {
        Config {
            bot_name: self.bot_name.clone(),
            concurrent_requests: self.concurrent_requests,
            robotstxt_obey: self.robotstxt_obey,
            output_dir: self.output_dir.clone(),
            user_agent: self.user_agent.clone(),
            request_timeout: self.request_timeout,
            max_retries: self.max_retries,
            retry_delay_ms: self.retry_delay_ms,
            proxies: crate::proxy::copy_strings(&self.proxies),
            proxy_rotation_enabled: self.proxy_rotation_enabled,
        }
    }
}

} // verus!
