use std::str::FromStr;
use vstd::prelude::*;

use crate::peer::{peer_id_text_is_valid, PeerId};

verus! {

/// The bootstrap address assumed when none is configured.
pub const DEFAULT_BOOTSTRAP_ADDR: &'static str = "/ip4/127.0.0.1/tcp/8080";

/// The listen address assumed when none is configured.
pub const DEFAULT_LISTEN_ADDR: &'static str = "/ip4/0.0.0.0/tcp/12345";

/// What `Multiaddr::from_str` of libp2p makes of a text: `true` when it is a
/// multiaddress.
pub uninterp spec fn multiaddr_text_is_valid(s: Seq<char>) -> bool;

/// Relies on `libp2p::Multiaddr::from_str`: whether the text parses depends
/// on its characters alone.
#[verifier::external_body]
fn parse_multiaddr_text(s: &str) -> (r: bool)
    ensures
        r == multiaddr_text_is_valid(s@),
{
    libp2p::Multiaddr::from_str(s).is_ok()
}

/// The configuration values that bootstrap resolution reads, each absent or
/// given as text: the bootstrap peer's identifier and address, and the local
/// listen address under its two names (`listen_addr` wins).
#[derive(Debug, Clone)]
pub struct BootstrapConfig {
    pub bootstrap_peer_id: Option<String>,
    pub bootstrap_addr: Option<String>,
    pub listen_addr: Option<String>,
    pub listening_addr: Option<String>,
}

/// Resolved bootstrap settings: the seed peer, if one was configured, the
/// bootstrap address and whether it was configured, and the listen address.
#[derive(Debug)]
pub struct ResolvedBootstrap {
    pub bootstrap_peer: Option<PeerId>,
    pub bootstrap_addr: String,
    pub bootstrap_addr_configured: bool,
    pub listen_addr: String,
}

/// Which configured value could not be read.
#[derive(Debug, Clone, Copy, PartialEq, Eq, Structural)]
pub enum BootstrapError {
    InvalidPeerId,
    InvalidBootstrapAddr,
    InvalidListenAddr,
}

/// A configured value, or the default.
pub open spec fn value_or(v: Option<String>, default: Seq<char>) -> Seq<char> {
    match v {
        Some(s) => s@,
        None => default,
    }
}

/// The bootstrap address in effect.
pub open spec fn effective_bootstrap_addr(c: BootstrapConfig) -> Seq<char> {
    value_or(c.bootstrap_addr, DEFAULT_BOOTSTRAP_ADDR@)
}

/// The listen address in effect.
pub open spec fn effective_listen_addr(c: BootstrapConfig) -> Seq<char> {
    match c.listen_addr {
        Some(s) => s@,
        None => value_or(c.listening_addr, DEFAULT_LISTEN_ADDR@),
    }
}

/// The first value of the configuration that cannot be read, checked in the
/// order peer identifier, bootstrap address, listen address.
pub open spec fn bootstrap_error(c: BootstrapConfig) -> Option<BootstrapError> {
    if c.bootstrap_peer_id matches Some(p) && !peer_id_text_is_valid(p@) {
        Some(BootstrapError::InvalidPeerId)
    } else if !multiaddr_text_is_valid(effective_bootstrap_addr(c)) {
        Some(BootstrapError::InvalidBootstrapAddr)
    } else if !multiaddr_text_is_valid(effective_listen_addr(c)) {
        Some(BootstrapError::InvalidListenAddr)
    } else {
        None
    }
}

fn value_or_default(v: &Option<String>, default: &str) -> (r: String)
    ensures
        r@ == value_or(*v, default@),
{
    match v {
        Some(s) => s.clone(),
        None => default.to_owned(),
    }
}

/// Resolves the bootstrap settings. An absent peer identifier means that the
/// node is a seed and dials no one; absent addresses take their defaults.
pub fn resolve(config: &BootstrapConfig) -> (r: Result<ResolvedBootstrap, BootstrapError>)
    ensures
        match bootstrap_error(*config) {
            Some(e) => r == Err::<ResolvedBootstrap, BootstrapError>(e),
            None => r matches Ok(b) && {
                &&& b.bootstrap_peer is Some == config.bootstrap_peer_id is Some
                &&& (b.bootstrap_peer matches Some(p) ==> p@ == config.bootstrap_peer_id->0@)
                &&& b.bootstrap_addr@ == effective_bootstrap_addr(*config)
                &&& b.bootstrap_addr_configured == config.bootstrap_addr is Some
                &&& b.listen_addr@ == effective_listen_addr(*config)
            },
        },
{
    let bootstrap_peer = match &config.bootstrap_peer_id {
        Some(text) => match PeerId::parse(text.as_str()) {
            Some(p) => Some(p),
            None => {
                return Err(BootstrapError::InvalidPeerId);
            },
        },
        None => None,
    };
    let bootstrap_addr = value_or_default(&config.bootstrap_addr, DEFAULT_BOOTSTRAP_ADDR);
    if !parse_multiaddr_text(bootstrap_addr.as_str()) {
        return Err(BootstrapError::InvalidBootstrapAddr);
    }
    let listen_addr = match &config.listen_addr {
        Some(s) => s.clone(),
        None => value_or_default(&config.listening_addr, DEFAULT_LISTEN_ADDR),
    };
    if !parse_multiaddr_text(listen_addr.as_str()) {
        return Err(BootstrapError::InvalidListenAddr);
    }
    Ok(ResolvedBootstrap {
        bootstrap_peer,
        bootstrap_addr,
        bootstrap_addr_configured: config.bootstrap_addr.is_some(),
        listen_addr,
    })
}

impl ResolvedBootstrap {
    /// The address to add to the routing table for the seed peer: present
    /// only when both the seed's identifier and its address were configured;
    /// otherwise the node starts alone and relies on local discovery.
    pub fn seed_address(&self) -> (r: Option<(PeerId, String)>)
        ensures
            r is Some <==> (self.bootstrap_peer is Some && self.bootstrap_addr_configured),
            r matches Some(s) ==> s.0@ == self.bootstrap_peer->0@ && s.1@ == self.bootstrap_addr@,
    {
        match &self.bootstrap_peer {
            Some(p) => {
                if self.bootstrap_addr_configured {
                    Some((p.clone(), self.bootstrap_addr.clone()))
                } else {
                    None
                }
            },
            None => None,
        }
    }
}

} // verus!
