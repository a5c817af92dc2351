//! Access rules of the server: which client addresses a ban covers, and the
//! message a refused request is answered with.

use vstd::prelude::*;
use crate::text::{push_str, string_push, trim, trimmed};

verus! {

/// How the server finds a client's address.
#[derive(Debug, Clone, Copy, PartialEq, Eq, Structural)]
pub struct AccessConfig {
    /// Whether the `x-forwarded-for` and `x-real-ip` headers of a proxy are believed.
    pub trust_proxy_headers: bool,
}

/// A client address: IPv4 as its 32 bits, IPv6 as its 128 bits.
#[derive(Debug, Clone, Copy, PartialEq, Eq, Structural)]
pub enum IpAddress {
    V4(u32),
    V6(u128),
}

/// A network: its address and the length of its prefix in bits
/// (at most 32 for IPv4, at most 128 for IPv6).
#[derive(Debug, Clone, Copy, PartialEq, Eq, Structural)]
pub enum Cidr {
    V4(u32, u8),
    V6(u128, u8),
}

/// What a ban names: a network, a single address, or text that is neither.
#[derive(Debug, Clone, Copy, PartialEq, Eq, Structural)]
pub enum BanTarget {
    Network(Cidr),
    Address(IpAddress),
    Unreadable,
}

/// The IPv4 mask of a prefix of `p` bits: every bit but the low `32 - p`.
pub open spec fn mask_v4(p: u32) -> u32 {
    !(0xffff_ffffu32 >> p)
}

/// The IPv6 mask of a prefix of `p` bits: every bit but the low `128 - p`.
pub open spec fn mask_v6(p: u32) -> u128 {
    !(0xffff_ffff_ffff_ffff_ffff_ffff_ffff_ffffu128 >> p)
}

/// The mask of an IPv4 prefix of `prefix` bits.
pub fn prefix_mask_v4(prefix: u8) -> (r: u32)
    requires
        prefix <= 32,
    ensures
        r == mask_v4(prefix as u32),
{
    if prefix == 0 {
        assert(!(0xffff_ffffu32 >> 0u32) == 0u32) by (bit_vector);
        0
    } else {
        let p = prefix as u32;
        let s: u32 = 32 - p;
        assert((0xffff_ffffu32 << s) == !(0xffff_ffffu32 >> p)) by (bit_vector)
            requires
                1 <= p <= 32,
                s == 32 - p,
        ;
        0xffff_ffffu32 << s
    }
}

/// The mask of an IPv6 prefix of `prefix` bits.
pub fn prefix_mask_v6(prefix: u8) -> (r: u128)
    requires
        prefix <= 128,
    ensures
        r == mask_v6(prefix as u32),
{
    if prefix == 0 {
        assert(!(0xffff_ffff_ffff_ffff_ffff_ffff_ffff_ffffu128 >> 0u32) == 0u128) by (bit_vector);
        0
    } else {
        let p = prefix as u32;
        let s: u32 = 128 - p;
        assert((0xffff_ffff_ffff_ffff_ffff_ffff_ffff_ffffu128 << s) == !(
        0xffff_ffff_ffff_ffff_ffff_ffff_ffff_ffffu128 >> p)) by (bit_vector)
            requires
                1 <= p <= 128,
                s == 128 - p,
        ;
        0xffff_ffff_ffff_ffff_ffff_ffff_ffff_ffffu128 << s
    }
}

impl Cidr {
    /// Whether the prefix length fits the address family.
    pub open spec fn is_valid(self) -> bool {
        match self {
            Cidr::V4(_, p) => p <= 32,
            Cidr::V6(_, p) => p <= 128,
        }
    }

    /// Whether `ip` lies in the network: same family, and equal under the prefix mask.
    pub open spec fn spec_contains(self, ip: IpAddress) -> bool {
        match (self, ip) {
            (Cidr::V4(net, p), IpAddress::V4(a)) => net & mask_v4(p as u32) == a & mask_v4(p as u32),
            (Cidr::V6(net, p), IpAddress::V6(a)) => net & mask_v6(p as u32) == a & mask_v6(p as u32),
            _ => false,
        }
    }

    /// The network of an address and a prefix length, when the length fits the family.
    pub fn from_parts(ip: IpAddress, prefix: u8) -> (r: Option<Cidr>)
        ensures
            match ip {
                IpAddress::V4(a) => if prefix <= 32 { r == Some(Cidr::V4(a, prefix)) } else { r is None },
                IpAddress::V6(a) => if prefix <= 128 { r == Some(Cidr::V6(a, prefix)) } else { r is None },
            },
    {
        match ip {
            IpAddress::V4(a) => if prefix <= 32 { Some(Cidr::V4(a, prefix)) } else { None },
            IpAddress::V6(a) => if prefix <= 128 { Some(Cidr::V6(a, prefix)) } else { None },
        }
    }

    /// Whether `ip` lies in the network.
    pub fn contains(self, ip: IpAddress) -> (r: bool)
        requires
            self.is_valid(),
        ensures
            r == self.spec_contains(ip),
    {
        match (self, ip) {
            (Cidr::V4(network, prefix), IpAddress::V4(ip)) => {
                let mask = prefix_mask_v4(prefix);
                network & mask == ip & mask
            },
            (Cidr::V6(network, prefix), IpAddress::V6(ip)) => {
                let mask = prefix_mask_v6(prefix);
                network & mask == ip & mask
            },
            _ => false,
        }
    }
}

/// An IPv4 address lies in a network of prefix length `p` exactly when it agrees
/// with the network's address on the first `p` bits, that is when their
/// difference lies in the low `32 - p` bits.
pub proof fn lemma_v4_network_is_shared_prefix(net: u32, a: u32, p: u32, host_bits: u32)
    requires
        p <= 32,
        host_bits == 32 - p,
    ensures
        Cidr::V4(net, p as u8).spec_contains(IpAddress::V4(a)) <==> (p == 0 || (net ^ a) >> host_bits == 0),
{
    assert((net & !(0xffff_ffffu32 >> p) == a & !(0xffff_ffffu32 >> p)) <==> (p == 0 || (net ^ a)
        >> host_bits == 0)) by (bit_vector)
        requires
            p <= 32,
            host_bits == 32 - p,
    ;
}

/// An IPv6 address lies in a network of prefix length `p` exactly when it agrees
/// with the network's address on the first `p` bits.
pub proof fn lemma_v6_network_is_shared_prefix(net: u128, a: u128, p: u32, host_bits: u32)
    requires
        p <= 128,
        host_bits == 128 - p,
    ensures
        Cidr::V6(net, p as u8).spec_contains(IpAddress::V6(a)) <==> (p == 0 || (net ^ a) >> host_bits == 0),
{
    assert((net & !(0xffff_ffff_ffff_ffff_ffff_ffff_ffff_ffffu128 >> p) == a & !(
    0xffff_ffff_ffff_ffff_ffff_ffff_ffff_ffffu128 >> p)) <==> (p == 0 || (net ^ a) >> host_bits == 0))
        by (bit_vector)
        requires
            p <= 128,
            host_bits == 128 - p,
    ;
}

/// Whether a ban on `target` covers `ip`.
pub open spec fn target_covers(target: BanTarget, ip: IpAddress) -> bool {
    match target {
        BanTarget::Network(cidr) => cidr.spec_contains(ip),
        BanTarget::Address(banned) => banned == ip,
        BanTarget::Unreadable => false,
    }
}

/// Whether a ban on `target` covers the client address `ip`: a network covers the
/// addresses in it, an address covers itself, and text that names neither covers nothing.
pub fn ip_matches_target(ip: IpAddress, target: BanTarget) -> (r: bool)
    requires
        target matches BanTarget::Network(cidr) ==> cidr.is_valid(),
    ensures
        r == target_covers(target, ip),
{
    match target {
        BanTarget::Network(cidr) => cidr.contains(ip),
        BanTarget::Address(banned) => banned == ip,
        BanTarget::Unreadable => false,
    }
}

/// The message a refused request gets: the prefix, then `": "` and the trimmed
/// reason when there is one.
pub open spec fn ban_message_text(prefix: Seq<char>, reason: Seq<char>) -> Seq<char> {
    if trimmed(reason).len() == 0 {
        prefix
    } else {
        prefix + seq![':', ' '] + trimmed(reason)
    }
}

/// The message a refused request gets (see [`ban_message_text`]).
pub fn ban_message(prefix: &str, reason: &str) -> (r: String)
    ensures
        r@ == ban_message_text(prefix@, reason@),
{
    let cause = trim(reason);
    let mut message = String::new();
    push_str(&mut message, prefix);
    if cause.as_str().unicode_len() == 0 {
        assert(message@ =~= prefix@);
        return message;
    }
    string_push(&mut message, ':');
    string_push(&mut message, ' ');
    push_str(&mut message, cause.as_str());
    assert(message@ =~= prefix@ + seq![':', ' '] + trimmed(reason@));
    message
}

/// The client's address: the one a proxy forwarded, when proxy headers are
/// believed and the request names one, else the address of the connection's peer.
pub fn client_ip(config: AccessConfig, forwarded: Option<IpAddress>, remote: Option<IpAddress>) -> (r: Option<
    IpAddress,
>)
    ensures
        r == (if config.trust_proxy_headers && forwarded is Some {
            forwarded
        } else {
            remote
        }),
{
    if config.trust_proxy_headers {
        if let Some(ip) = forwarded {
            return Some(ip);
        }
    }
    remote
}

/// The instant `a`, as seconds and nanoseconds since the Unix epoch, comes after `b`.
pub open spec fn later(a: (i64, u32), b: (i64, u32)) -> bool {
    a.0 > b.0 || (a.0 == b.0 && a.1 > b.1)
}

/// Whether a ban's expiry is accepted at `now`: no expiry, or one after `now`.
pub fn expiry_accepted(expiry: Option<(i64, u32)>, now: (i64, u32)) -> (r: bool)
    ensures
        r == match expiry {
            Some(e) => later(e, now),
            None => true,
        },
{
    match expiry {
        Some(e) => e.0 > now.0 || (e.0 == now.0 && e.1 > now.1),
        None => true,
    }
}

} // verus!
