//! Calls into `iroh`, `hostname` and the standard library, with what the host
//! relies on.

use crate::text;
use vstd::prelude::*;

verus! {

/// An iroh endpoint: a socket bound to the network.
#[verifier::external_type_specification]
#[verifier::external_body]
pub struct ExEndpoint(iroh::Endpoint);

/// An endpoint's identifier with the transport addresses it can be reached at.
#[verifier::external_type_specification]
#[verifier::external_body]
pub struct ExEndpointAddr(iroh::EndpointAddr);

/// One transport address of an endpoint.
pub enum AddrEntry {
    /// A relay server, by its URL.
    Relay(Seq<char>),
    /// An IP address and port.
    Ip(Seq<char>),
    /// An address of another transport.
    Custom,
}

/// The relay URLs among `entries`.
pub open spec fn relay_texts(entries: Seq<AddrEntry>) -> Seq<Seq<char>>
    decreases entries.len(),
{
    if entries.len() == 0 {
        Seq::empty()
    } else {
        match entries.last() {
            AddrEntry::Relay(url) => relay_texts(entries.drop_last()).push(url),
            _ => relay_texts(entries.drop_last()),
        }
    }
}

/// The IP addresses among `entries`.
pub open spec fn ip_texts(entries: Seq<AddrEntry>) -> Seq<Seq<char>>
    decreases entries.len(),
{
    if entries.len() == 0 {
        Seq::empty()
    } else {
        match entries.last() {
            AddrEntry::Ip(address) => ip_texts(entries.drop_last()).push(address),
            _ => ip_texts(entries.drop_last()),
        }
    }
}

/// The ed25519 public key that belongs to a 32-byte secret key.
pub uninterp spec fn public_key_bytes(secret: Seq<u8>) -> Seq<u8>;

/// The transport addresses of an endpoint address, in the order of the set
/// that holds them.
pub uninterp spec fn addr_entries(addr: iroh::EndpointAddr) -> Seq<AddrEntry>;

/// `iroh::SecretKey::public`, with the key read by `SecretKey::from_bytes` and
/// the public key written by its `Display`: the lowercase hexadecimal form of
/// the 32 bytes of the public key. Which bytes those are is left to the name
/// [`public_key_bytes`].
#[verifier::external_body]
pub(crate) fn public_key_text(secret: &[u8; 32]) -> (id: String)
    ensures
        id@ == text::hex_lower(public_key_bytes(secret@)),
        id@.len() == 64,
{
    iroh::SecretKey::from_bytes(secret).public().to_string()
}

/// `iroh::Endpoint::addr`. The address an endpoint reports depends on the
/// state of the network, so nothing is claimed of it.
#[verifier::external_body]
pub(crate) fn current_addr(endpoint: &iroh::Endpoint) -> (addr: iroh::EndpointAddr) {
    endpoint.addr()
}

/// `iroh::EndpointAddr::relay_urls`, each URL written by its `Display`: the
/// relay entries of the address, in order, and no others.
#[verifier::external_body]
pub(crate) fn relay_urls(addr: &iroh::EndpointAddr) -> (urls: Vec<String>)
    ensures
        text::texts(urls@) == relay_texts(addr_entries(*addr)),
{
    addr.relay_urls().map(|url| url.to_string()).collect()
}

/// `iroh::EndpointAddr::ip_addrs`, each socket address written by its
/// `Display`: the IP entries of the address, in order, and no others.
#[verifier::external_body]
pub(crate) fn ip_addrs(addr: &iroh::EndpointAddr) -> (addresses: Vec<String>)
    ensures
        text::texts(addresses@) == ip_texts(addr_entries(*addr)),
{
    addr.ip_addrs().map(|address| address.to_string()).collect()
}

/// `hostname::get`, with the name read as UTF-8: `None` where the system
/// reports none or the name is not UTF-8. The name is the machine's, so
/// nothing is claimed of it.
#[verifier::external_body]
pub(crate) fn system_host_name() -> (name: Option<String>) {
    match hostname::get() {
        Ok(name) => match name.into_string() {
            Ok(text) => Some(text),
            Err(_) => None,
        },
        Err(_) => None,
    }
}

/// `String: From<&str>` copies the characters of the slice.
pub assume_specification<'a>[ <String as From<&'a str>>::from ](s: &str) -> (copy: String)
    ensures
        copy@ == s@,
;

/// `From` of a type to itself returns the value unchanged.
pub assume_specification<Same>[ <Same as std::convert::From<Same>>::from ](value: Same) -> (kept:
    Same)
    ensures
        kept == value,
;

} // verus!
