//! The routing key: the one string a connection is routed by, published to
//! connection context exactly once before backend resolution.

use vstd::prelude::*;

use crate::addr::{extract_ip_string, spec_ip_text, SockAddr};

verus! {

/// The routing key for a connection: the SNI hostname when one is present
/// and non-empty, else the textual form of the local listener's IP with an
/// IPv4-mapped IPv6 address normalized to plain IPv4 text.
pub open spec fn spec_routing_key(sni: Option<String>, local: SockAddr) -> Seq<char> {
    match sni {
        Some(h) => if h@.len() > 0 {
            h@
        } else {
            spec_ip_text(local.ip)
        },
        None => spec_ip_text(local.ip),
    }
}

/// Derive the routing key, per `spec_routing_key`.
pub fn routing_key(sni: &Option<String>, local: &SockAddr) -> (k: String)
    ensures
        k@ == spec_routing_key(*sni, *local),
{
    match sni {
        Some(h) => {
            if h.as_str().is_empty() {
                extract_ip_string(local)
            } else {
                h.clone()
            }
        },
        None => extract_ip_string(local),
    }
}

/// Law: a non-empty SNI hostname is the routing key verbatim; without one
/// the key is the local IP's text, IPv4-normalized when the address is
/// IPv4-mapped.
pub proof fn lemma_routing_key(sni: Option<String>, local: SockAddr)
    ensures
        (sni matches Some(h) ==> (h@.len() > 0 ==> spec_routing_key(sni, local) == h@) && (
        h@.len() == 0 ==> spec_routing_key(sni, local) == spec_ip_text(local.ip))),
        sni is None ==> spec_routing_key(sni, local) == spec_ip_text(local.ip),
{
}

} // verus!
