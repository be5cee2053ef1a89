//! The service-discovery side: registry endpoint settings, registration
//! names, and the filter that keeps only sibling instances.
//!
//! Every instance of this application announces itself under a fixed name
//! prefix followed by a colon and its own network address. Listing peers
//! fetches every registered service and keeps exactly those whose service
//! name begins with that prefix. The HTTP exchange with the registry itself
//! is left to the surrounding process; this module holds the rules.

use vstd::prelude::*;

verus! {

/// A service instance as the discovery registry reports it.
pub struct Service {
    pub id: String,
    pub service: String,
    pub address: String,
}

impl Clone for Service {
    /// An exact copy, field for field.
    fn clone(&self) -> (copy: Service)
        ensures
            copy == *self,
    {
        Service {
            id: self.id.clone(),
            service: self.service.clone(),
            address: self.address.clone(),
        }
    }
}

/// Where the discovery registry listens.
pub struct Config {
    pub host: String,
    pub port: u16,
}

impl Config {
    pub fn new(host: String, port: u16) -> (cfg: Config)
        ensures
            cfg.host == host,
            cfg.port == port,
    {
        Config { host, port }
    }
}

impl Default for Config {
    /// The registry's conventional local endpoint.
    fn default() -> (cfg: Config)
        ensures
            cfg.host@ == "localhost"@,
            cfg.port == 8500,
    {
        Config { host: "localhost".to_owned(), port: 8500 }
    }
}

/// The name prefix every instance of this application registers under.
pub open spec fn peer_prefix() -> Seq<char> {
    "poc-game"@
}

/// A service counts as a peer when its name begins with the peer prefix.
pub open spec fn is_peer(s: Service) -> bool {
    peer_prefix().is_prefix_of(s.service@)
}

/// The registry name of the instance at the given address: the peer prefix,
/// a colon, then the address. Any name built this way is itself a peer name.
pub fn registration_name(addr: &str) -> (name: String)
    ensures
        name@ == "poc-game:"@ + addr@,
        peer_prefix().is_prefix_of(name@),
{
    proof {
        reveal_strlit("poc-game:");
        reveal_strlit("poc-game");
        assert(peer_prefix().is_prefix_of("poc-game:"@)) by {
            assert(peer_prefix() =~= "poc-game:"@.subrange(0, 8));
        }
    }
    let mut name = "poc-game:".to_owned();
    name.append(addr);
    proof {
        assert(peer_prefix() =~= name@.subrange(0, 8));
    }
    name
}

/// Whether the characters of `prefix` open the characters of `s`.
#[verifier::loop_isolation(false)]
fn str_starts_with(s: &str, prefix: &str) -> (r: bool)
    ensures
        r == prefix@.is_prefix_of(s@),
{
    let n = prefix.unicode_len();
    let m = s.unicode_len();
    if n > m {
        return false;
    }
    let mut i: usize = 0;
    while i < n
        invariant
            i <= n,
            forall|j: int| 0 <= j < i as int ==> prefix@[j] == s@[j],
        decreases n - i,
    {
        if s.get_char(i) != prefix.get_char(i) {
            proof {
                assert(prefix@[i as int] != s@.subrange(0, n as int)[i as int]);
            }
            return false;
        }
        i = i + 1;
    }
    proof {
        assert(prefix@ =~= s@.subrange(0, n as int));
    }
    true
}

/// Keep, in their incoming order, exactly the services whose name begins
/// with the peer prefix.
#[verifier::loop_isolation(false)]
pub fn filter_peers(services: &Vec<Service>) -> (peers: Vec<Service>)
    ensures
        peers@ == services@.filter(|s: Service| is_peer(s)),
{
    broadcast use vstd::seq_lib::group_filter_ensures;

    let ghost pred = |s: Service| is_peer(s);
    let mut peers: Vec<Service> = Vec::new();
    let mut i: usize = 0;
    while i < services.len()
        invariant
            i <= services@.len(),
            peers@ == services@.subrange(0, i as int).filter(pred),
        decreases services@.len() - i,
    {
        let s = &services[i];
        if str_starts_with(s.service.as_str(), "poc-game") {
            peers.push(s.clone());
        }
        proof {
            assert(services@.subrange(0, i as int).push(services@[i as int]) =~= services@
                .subrange(0, i as int + 1));
            Seq::lemma_filter_push(services@.subrange(0, i as int), services@[i as int], pred);
        }
        i = i + 1;
    }
    proof {
        assert(services@.subrange(0, services@.len() as int) =~= services@);
    }
    peers
}

} // verus!
