//! The client address a proxy reports in the `x-envoy-external-address` header. Reading
//! the text of an address is left to the caller.
use crate::text::{find_char, first_index_of, lemma_first_index_props, trim, trimmed};
use vstd::prelude::*;

verus! {

/// The name of the header the proxy reports the client address in.
pub fn external_address_header() -> (r: &'static str)
    ensures
        r@ == "x-envoy-external-address"@,
{
    "x-envoy-external-address"
}

/// An IP address: a version 4 address as its 32-bit value, or a version 6 address as its
/// 128-bit value.
#[derive(Clone, Copy, Debug, PartialEq, Eq, Structural)]
pub enum IpAddress {
    V4(u32),
    V6(u128),
}

/// The first entry of a comma-separated header value: the value trimmed, cut at its first
/// comma, and trimmed again.
pub open spec fn spec_first_entry(value: Seq<char>) -> Seq<char> {
    let raw = trimmed(value);
    match first_index_of(raw, ',') {
        Some(k) => trimmed(raw.subrange(0, k)),
        None => trimmed(raw),
    }
}

/// The first entry of a comma-separated header value, trimmed.
pub fn first_entry(value: &str) -> (r: &str)
    ensures
        r@ == spec_first_entry(value@),
{
    let raw = trim(value);
    proof {
        lemma_first_index_props(raw@, ',');
    }
    match find_char(raw, ',') {
        Some(k) => trim(raw.substring_char(0, k)),
        None => trim(raw),
    }
}

/// The address an entry names: read as an IP address, or else as a socket address whose
/// IP address is taken.
pub fn choose_ip(as_ip: Option<IpAddress>, as_socket: Option<IpAddress>) -> (r: Option<IpAddress>)
    ensures
        r == (match as_ip {
            Some(ip) => Some(ip),
            None => as_socket,
        }),
{
    match as_ip {
        Some(ip) => Some(ip),
        None => as_socket,
    }
}

} // verus!
