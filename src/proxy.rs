//! Proxy settings for downloads of the managed Node.js runtime.
use vstd::prelude::*;

verus! {

/// The proxies configured for HTTP and HTTPS, and the hosts exempt from them.
pub struct ProxySettings {
    pub http: Option<String>,
    pub https: Option<String>,
    pub no_proxy: Option<String>,
}

impl ProxySettings {
    /// The proxy to use: the HTTPS one when set, else the HTTP one.
    pub fn proxy_url(&self) -> (r: Option<&String>)
        ensures
            r == match self.https {
                Some(u) => Some(&u),
                None => match self.http {
                    Some(u) => Some(&u),
                    None => None,
                },
            },
    {
        match &self.https {
            Some(url) => Some(url),
            None => match &self.http {
                Some(url) => Some(url),
                None => None,
            },
        }
    }
}

} // verus!
