use vstd::prelude::*;
use vstd::string::*;

verus! {

/// The proxy validator's settings: the URL probed through each candidate
/// proxy and the probe timeout. The probe itself is network work done by
/// the caller; `classify_probe` is the decision applied to what came back.
pub struct ProxyValidator {
    pub test_url: String,
    pub timeout_secs: u64,
}

impl Default for ProxyValidator {
    /// The stock validator settings, as `new` builds them.
    fn default() -> (r: ProxyValidator)
        ensures
            r.test_url@ == "https://httpbin.org/ip"@,
            r.timeout_secs == 10,
    {
        ProxyValidator {
            test_url: String::from_str("https://httpbin.org/ip"),
            timeout_secs: 10,
        }
    }
}

impl ProxyValidator {
    /// The stock validator: a well-known echo endpoint and ten seconds.
    pub fn new() -> (r: ProxyValidator)
        ensures
            r.test_url@ == "https://httpbin.org/ip"@,
            r.timeout_secs == 10,
    {
        ProxyValidator { test_url: String::from_str("https://httpbin.org/ip"), timeout_secs: 10 }
    }

    /// The validator with another probe URL.
    pub fn with_test_url(self, url: String) -> (r: ProxyValidator)
        ensures
            r.test_url == url,
            r.timeout_secs == self.timeout_secs,
    {
        ProxyValidator { test_url: url, timeout_secs: self.timeout_secs }
    }

    /// The validator with another probe timeout.
    pub fn with_timeout(self, timeout_secs: u64) -> (r: ProxyValidator)
        ensures
            r.test_url == self.test_url,
            r.timeout_secs == timeout_secs,
    {
        ProxyValidator { test_url: self.test_url, timeout_secs }
    }

    /// Whether a probe outcome keeps its proxy: only a success status
    /// does; a failed or unanswered probe drops it.
    pub fn classify_probe(&self, status: Option<u16>) -> (r: bool)
        ensures
            r == (status matches Some(s) && 200 <= s < 300),
    {
        match status {
            Some(s) => 200 <= s && s < 300,
            None => false,
        }
    }
}

} // verus!
