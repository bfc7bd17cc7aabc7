use vstd::prelude::*;
use crate::config::Config;
use crate::errors::ScrapeError;
use crate::proxy::{ProxyRotator, spec_keep_nonblank};
use crate::strutil::spec_str_views;

verus! {

/// The fetch-side state a spider carries: its configuration and, when the
/// configuration names proxies, the rotation pool built over them. The
/// HTTP transport itself lives outside the library; callers drive it with
/// the retry decisions of `fetch` and the proxies handed out here.
pub struct HttpClient {
    pub config: Config,
    pub proxy_rotator: Option<ProxyRotator>,
}

impl HttpClient {
    /// A client over a configuration: a pool is built exactly when the
    /// configuration names at least one proxy.
    pub fn new(config: Config) -> (r: Result<HttpClient, ScrapeError>)
        ensures
            r matches Ok(c) && {
                &&& c.config == config
                &&& config.proxies@.len() == 0 ==> c.proxy_rotator is None
                &&& config.proxies@.len() > 0 ==> (c.proxy_rotator matches Some(p)
                    && spec_str_views(p.proxies@) == spec_keep_nonblank(
                    spec_str_views(config.proxies@),
                ) && p.cursor == 0)
            },
    {
        if config.proxies.len() > 0 {
            let copied = crate::proxy::copy_strings(&config.proxies);
            let rotator = ProxyRotator::new(copied);
            Ok(HttpClient { config, proxy_rotator: Some(rotator) })
        } else {
            Ok(HttpClient { config, proxy_rotator: None })
        }
    }

    /// Hands out the next proxy of the pool, if one is configured.
    pub fn get_next_proxy(&mut self) -> (r: Option<String>)
        ensures
            final(self).config == old(self).config,
            match old(self).proxy_rotator {
                None => r is None && final(self).proxy_rotator is None,
                Some(p) => if p.proxies@.len() == 0 {
                    r is None && final(self).proxy_rotator == old(self).proxy_rotator
                } else {
                    &&& (r matches Some(u) && u@ == p.proxies@[(p.cursor as int) % (
                    p.proxies@.len() as int)]@)
                    &&& (final(self).proxy_rotator matches Some(q) && q.proxies == p.proxies
                        && q.cursor == (if p.cursor == usize::MAX {
                        0usize
                    } else {
                        (p.cursor + 1) as usize
                    }))
                },
            },
    {
        match &mut self.proxy_rotator {
            Some(rot) => rot.get_next_proxy(),
            None => None,
        }
    }

    /// Whether the client can rotate proxies at all.
    pub fn has_proxies(&self) -> (r: bool)
        ensures
            r == (self.proxy_rotator matches Some(p) && p.proxies@.len() > 0),
    {
        match &self.proxy_rotator {
            Some(rot) => rot.has_proxies(),
            None => false,
        }
    }

    /// How many proxies the client rotates over.
    pub fn proxy_count(&self) -> (r: usize)
        ensures
            r == match self.proxy_rotator {
                Some(p) => p.proxies@.len(),
                None => 0,
            },
    {
        match &self.proxy_rotator {
            Some(rot) => rot.proxy_count(),
            None => 0,
        }
    }
}

} // verus!
