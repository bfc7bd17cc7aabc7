use vstd::prelude::*;

verus! {

/// The request-side middleware: it spaces requests by a fixed delay and
/// decorates them with realistic headers. The delay it asks for is the
/// verified part; the sleeping and the header writing happen at the
/// transport.
pub struct LinkedinDownloaderMiddleware {
    pub delay_between_requests_ms: u64,
}

impl Default for LinkedinDownloaderMiddleware {
    /// The stock middleware settings, as `new` builds them.
    fn default() -> (r: LinkedinDownloaderMiddleware)
        ensures
            r.delay_between_requests_ms == 1000,
    {
        LinkedinDownloaderMiddleware { delay_between_requests_ms: 1000 }
    }
}

impl Default for LinkedinSpiderMiddleware {
    fn default() -> (r: LinkedinSpiderMiddleware) {
        LinkedinSpiderMiddleware {  }
    }
}

impl LinkedinDownloaderMiddleware {
    /// The stock middleware: one second between requests.
    pub fn new() -> (r: LinkedinDownloaderMiddleware)
        ensures
            r.delay_between_requests_ms == 1000,
    {
        LinkedinDownloaderMiddleware { delay_between_requests_ms: 1000 }
    }

    /// A middleware with a chosen delay.
    pub fn with_delay(delay_ms: u64) -> (r: LinkedinDownloaderMiddleware)
        ensures
            r.delay_between_requests_ms == delay_ms,
    {
        LinkedinDownloaderMiddleware { delay_between_requests_ms: delay_ms }
    }

    /// The delay owed before the next request goes out.
    pub fn request_delay_ms(&self) -> (r: u64)
        ensures
            r == self.delay_between_requests_ms,
    {
        self.delay_between_requests_ms
    }
}

/// The item-side middleware. It passes spider output through unchanged;
/// it exists as the seam where output filtering would hang.
pub struct LinkedinSpiderMiddleware {}

impl LinkedinSpiderMiddleware {
    pub fn new() -> (r: LinkedinSpiderMiddleware) {
        LinkedinSpiderMiddleware {  }
    }

    /// Passes a batch of items through unchanged.
    pub fn process_spider_output<T>(&self, items: Vec<T>) -> (r: Vec<T>)
        ensures
            r == items,
    {
        items
    }
}

} // verus!
