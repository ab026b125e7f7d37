//! Which network interfaces and addresses the peer connection may use.

use vstd::prelude::*;

verus! {

/// A text in lower case, as `str::to_lowercase` gives it.
pub uninterp spec fn lowercased(text: Seq<char>) -> Seq<char>;

/// `pattern` stands somewhere in `text`.
pub open spec fn occurs_in(pattern: Seq<char>, text: Seq<char>) -> bool {
    exists|i: int|
        0 <= i && i + pattern.len() <= text.len() && #[trigger] text.subrange(
            i,
            i + pattern.len(),
        ) == pattern
}

/// `str::to_lowercase`.
#[verifier::external_body]
fn lowercase(text: &str) -> (r: String)
    ensures
        r@ == lowercased(text@),
{
    text.to_lowercase()
}

/// `str::contains` with a string as the pattern: whether the pattern
/// matches a part of the text.
#[verifier::external_body]
fn contains(text: &str, pattern: &str) -> (r: bool)
    ensures
        r == occurs_in(pattern@, text@),
{
    text.contains(pattern)
}

/// A name in lower case that tells a virtual or otherwise unfit interface.
pub open spec fn names_unfit_interface(lower: Seq<char>) -> bool {
    ||| occurs_in("hyper-v"@, lower)
    ||| occurs_in("vmware"@, lower)
    ||| occurs_in("virtualbox"@, lower)
    ||| occurs_in("docker"@, lower)
    ||| occurs_in("vethernet"@, lower)
    ||| occurs_in("bluetooth"@, lower)
    ||| occurs_in("loopback"@, lower)
    ||| occurs_in("teredo"@, lower)
    ||| occurs_in("isatap"@, lower)
    ||| occurs_in("6to4"@, lower)
}

/// Whether the peer connection may use the interface of this name: not
/// where the name, whatever its case, tells a virtual adapter, Bluetooth,
/// loopback or a tunnel.
pub fn interface_allowed(name: &str) -> (r: bool)
    ensures
        r == !names_unfit_interface(lowercased(name@)),
{
    let lower = lowercase(name);
    let l = lower.as_str();
    !(contains(l, "hyper-v") || contains(l, "vmware") || contains(l, "virtualbox") || contains(
        l,
        "docker",
    ) || contains(l, "vethernet") || contains(l, "bluetooth") || contains(l, "loopback")
        || contains(l, "teredo") || contains(l, "isatap") || contains(l, "6to4"))
}

/// An IPv4 address in 127.0.0.0/8.
pub open spec fn is_ipv4_loopback(octets: Seq<u8>) -> bool {
    octets[0] == 127
}

/// An IPv4 address in 169.254.0.0/16.
pub open spec fn is_ipv4_link_local(octets: Seq<u8>) -> bool {
    octets[0] == 169 && octets[1] == 254
}

/// The IPv6 address `::1`.
pub open spec fn is_ipv6_loopback(segments: Seq<u16>) -> bool {
    &&& forall|i: int| 0 <= i < 7 ==> segments[i] == 0
    &&& segments[7] == 1
}

/// An IPv6 address in fe80::/10.
pub open spec fn is_ipv6_link_local(segments: Seq<u16>) -> bool {
    segments[0] & 0xffc0 == 0xfe80
}

/// Whether the peer connection may use this IPv4 address: neither loopback
/// nor link-local.
pub fn ipv4_allowed(octets: [u8; 4]) -> (r: bool)
    ensures
        r == (!is_ipv4_loopback(octets@) && !is_ipv4_link_local(octets@)),
{
    !(octets[0] == 127) && !(octets[0] == 169 && octets[1] == 254)
}

/// Whether the peer connection may use this IPv6 address: neither loopback
/// nor link-local.
pub fn ipv6_allowed(segments: [u16; 8]) -> (r: bool)
    ensures
        r == (!is_ipv6_loopback(segments@) && !is_ipv6_link_local(segments@)),
{
    let loopback = segments[0] == 0 && segments[1] == 0 && segments[2] == 0 && segments[3] == 0
        && segments[4] == 0 && segments[5] == 0 && segments[6] == 0 && segments[7] == 1;
    let link_local = segments[0] & 0xffc0 == 0xfe80;
    !loopback && !link_local
}

} // verus!
