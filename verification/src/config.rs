//! Where the proxy listens and what it forwards to.
use vstd::prelude::*;

verus! {

/// Configuration for the Stratum V1 proxy
#[derive(Debug)]
pub struct ProxyConfig {
    pub listen_addr: String,
    pub upstream_addr: String,
}

/// What a configuration says.
#[verifier::ext_equal]
pub struct ProxyConfigView {
    pub listen_addr: Seq<char>,
    pub upstream_addr: Seq<char>,
}

impl View for ProxyConfig {
    type V = ProxyConfigView;

    open spec fn view(&self) -> ProxyConfigView {
        ProxyConfigView { listen_addr: self.listen_addr@, upstream_addr: self.upstream_addr@ }
    }
}

impl Clone for ProxyConfig {
    fn clone(&self) -> (copy: ProxyConfig)
        ensures
            copy@ == self@,
    {
        ProxyConfig {
            listen_addr: self.listen_addr.clone(),
            upstream_addr: self.upstream_addr.clone(),
        }
    }
}

/// What the environment says, or else the default.
pub open spec fn set_or(set: Option<String>, default: Seq<char>) -> Seq<char> {
    match set {
        Some(value) => value@,
        None => default,
    }
}

impl ProxyConfig {
    /// Configuration from what the environment variables `PROXY_LISTEN_ADDR`
    /// and `UPSTREAM_ADDR` are set to; a variable that is not set has its
    /// default.
    pub fn from_env(listen_addr: Option<String>, upstream_addr: Option<String>) -> (config:
        ProxyConfig)
        ensures
            config.listen_addr@ == set_or(listen_addr, "0.0.0.0:3333"@),
            config.upstream_addr@ == set_or(upstream_addr, "127.0.0.1:3334"@),
            listen_addr matches Some(addr) ==> config.listen_addr@ == addr@,
            listen_addr is None ==> config.listen_addr@ == "0.0.0.0:3333"@,
            upstream_addr matches Some(addr) ==> config.upstream_addr@ == addr@,
            upstream_addr is None ==> config.upstream_addr@ == "127.0.0.1:3334"@,
    {
        let listen_addr = match listen_addr {
            Some(addr) => addr,
            None => "0.0.0.0:3333".to_string(),
        };
        let upstream_addr = match upstream_addr {
            Some(addr) => addr,
            None => "127.0.0.1:3334".to_string(),
        };
        ProxyConfig { listen_addr, upstream_addr }
    }

    /// Create a new configuration with explicit values
    pub fn new(listen_addr: String, upstream_addr: String) -> (config: ProxyConfig)
        ensures
            config.listen_addr == listen_addr,
            config.upstream_addr == upstream_addr,
    {
        ProxyConfig { listen_addr, upstream_addr }
    }
}

/// What is set is taken, whatever it is and whatever the default is; the default is
/// taken exactly if nothing is set. What is looked at of a configuration is all that
/// it holds.
pub proof fn law_what_is_set_is_taken(value: String, default: Seq<char>, config: ProxyConfig)
    ensures
        set_or(Some(value), default) == value@,
        set_or(None, default) == default,
        config@.listen_addr == config.listen_addr@,
        config@.upstream_addr == config.upstream_addr@,
{
}

} // verus!
