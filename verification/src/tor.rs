//! Tor: where its state is kept, and what addresses look like.

use vstd::prelude::*;

use crate::text;

verus! {

/// The directories of a Tor client.
#[derive(Debug, Clone)]
pub struct TorConnection {
    pub state_dir: String,
    pub cache_dir: String,
}

impl TorConnection {
    pub fn new(data_dir: &str) -> (r: TorConnection)
        ensures
            r.state_dir@ == text::path_in(data_dir@, "tor_client_state"@),
            r.cache_dir@ == text::path_in(data_dir@, "tor_client_cache"@),
    {
        TorConnection {
            state_dir: text::join_path(data_dir, "tor_client_state"),
            cache_dir: text::join_path(data_dir, "tor_client_cache"),
        }
    }
}

/// The directories and ports of a hidden service.
#[derive(Debug, Clone)]
pub struct TorServiceConfig {
    pub state_dir: String,
    pub cache_dir: String,
    pub local_port: u16,
    pub hs_port: u16,
}

impl Default for TorServiceConfig {
    fn default() -> (r: TorServiceConfig)
        ensures
            r.state_dir@ == "zerosum_tor_state"@,
            r.cache_dir@ == "zerosum_tor_cache"@,
            r.local_port == 18080,
            r.hs_port == 80,
    {
        TorServiceConfig {
            state_dir: "zerosum_tor_state".to_owned(),
            cache_dir: "zerosum_tor_cache".to_owned(),
            local_port: 18080,
            hs_port: 80,
        }
    }
}

impl TorServiceConfig {
    /// The configuration of a server's hidden service.
    pub fn for_server(data_dir: &str, local_port: u16) -> (r: TorServiceConfig)
        ensures
            r.state_dir@ == text::path_in(data_dir@, "tor_state"@),
            r.cache_dir@ == text::path_in(data_dir@, "tor_cache"@),
            r.local_port == local_port,
            r.hs_port == 80,
    {
        TorServiceConfig {
            state_dir: text::join_path(data_dir, "tor_state"),
            cache_dir: text::join_path(data_dir, "tor_cache"),
            local_port,
            hs_port: 80,
        }
    }
}

/// An onion address with its ending, whether or not the name came with it.
pub open spec fn full_address(name: Option<Seq<char>>) -> Seq<char> {
    match name {
        Some(n) => if text::ends_with_text(n, ".onion"@) {
            n
        } else {
            n + ".onion"@
        },
        None => "unknown.onion"@,
    }
}

/// The address of a hidden service, from the name that it was given.
pub fn onion_address(name: Option<String>) -> (r: String)
    ensures
        r@ == full_address(text::opt_text(name)),
{
    match name {
        Some(n) => if text::ends_with(n.as_str(), ".onion") {
            n
        } else {
            text::join2(n.as_str(), ".onion")
        },
        None => "unknown.onion".to_owned(),
    }
}

/// A host and a port as one address.
pub fn host_with_port(host: &str, port: u16) -> (r: String)
    ensures
        r@ == host@ + ":"@ + text::decimal(port as nat),
{
    text::join3(host, ":", text::decimal_text(port as u64).as_str())
}

/// An address always has the ending, and having it is not changed by asking
/// again.
pub proof fn law_onion_address_has_its_ending(name: Option<Seq<char>>)
    ensures
        text::ends_with_text(full_address(name), ".onion"@),
        full_address(Some(full_address(name))) == full_address(name),
{
    reveal_strlit(".onion");
    reveal_strlit("unknown.onion");
    match name {
        Some(n) => {
            if !text::ends_with_text(n, ".onion"@) {
                let a = n + ".onion"@;
                assert(a.skip(a.len() - ".onion"@.len()) =~= ".onion"@);
            }
        },
        None => {
            let a = "unknown.onion"@;
            assert(a.skip(a.len() - ".onion"@.len()) =~= ".onion"@);
        },
    }
}

/// A name that has the ending is the address; one that has not gets it.
pub proof fn law_onion_name_is_kept(name: Seq<char>)
    ensures
        text::ends_with_text(name, ".onion"@) ==> full_address(Some(name)) == name,
        !text::ends_with_text(name, ".onion"@) ==> full_address(Some(name)) == name + ".onion"@,
{
}

} // verus!
