use vstd::arithmetic::power2::pow2;
use vstd::bits::lemma_u64_pow2_no_overflow;
use vstd::bits::lemma_u64_shl_is_mul;
use vstd::prelude::*;

verus! {

use crate::addr::{Ipv4, first_octet, second_octet};

/// The legacy classful category of an address, decided by its first
/// octet alone: 1-127 is 'A', 128-191 is 'B', 192-223 is 'C', 224-239
/// is 'D' (multicast) and 240-255 is 'E' (reserved).  A first octet of
/// 0 is given no class of its own and falls through to 'E'; this is a
/// deliberate quirk of the classification, kept as it stands.
pub open spec fn class_of(addr: u32) -> char {
    let fo = first_octet(addr);
    if 1 <= fo && fo < 128 {
        'A'
    } else if 128 <= fo && fo < 192 {
        'B'
    } else if 192 <= fo && fo < 224 {
        'C'
    } else if 224 <= fo && fo < 240 {
        'D'
    } else {
        'E'
    }
}

/// True iff the address lies in one of the RFC1918 private ranges:
/// 10.0.0.0/8, 172.16.0.0/12 or 192.168.0.0/16.
pub open spec fn is_private_ip(addr: u32) -> bool {
    first_octet(addr) == 10 || (first_octet(addr) == 172 && 16 <= second_octet(addr)
        && second_octet(addr) <= 31) || (first_octet(addr) == 192 && second_octet(addr) == 168)
}

/// The network mask for a prefix length: the top `cidr` bits set, the
/// rest clear.  A prefix length of 0 is an explicit branch, so that no
/// shift by the full word width is ever taken.
pub open spec fn mask_of(cidr: u8) -> u32
    recommends
        cidr <= 32,
{
    if cidr == 0 {
        0u32
    } else {
        0xFFFF_FFFFu32 << ((32 - cidr) as u32)
    }
}

/// The address with its host bits cleared.
pub open spec fn network_of(addr: u32, cidr: u8) -> u32
    recommends
        cidr <= 32,
{
    addr & mask_of(cidr)
}

/// The address with its host bits set.
pub open spec fn broadcast_of(addr: u32, cidr: u8) -> u32
    recommends
        cidr <= 32,
{
    addr | !mask_of(cidr)
}

/// True iff hosts can be assigned in the address's class at all:
/// classes A, B and C, but not the multicast and reserved classes D
/// and E.
pub open spec fn is_assignable_class(addr: u32) -> bool {
    class_of(addr) == 'A' || class_of(addr) == 'B' || class_of(addr) == 'C'
}

/// True iff the subnet has a usable host range: an assignable class
/// and a prefix length of at most 30.  The /31 point-to-point pair
/// convention is deliberately not modelled: /31 and /32 have no range.
pub open spec fn has_host_range(addr: u32, cidr: u8) -> bool {
    is_assignable_class(addr) && cidr <= 30
}

/// The first usable host address: one past the network address.
pub open spec fn host_start_of(addr: u32, cidr: u8) -> u32
    recommends
        has_host_range(addr, cidr),
{
    (network_of(addr, cidr) + 1) as u32
}

/// The last usable host address: one before the broadcast address.
pub open spec fn host_end_of(addr: u32, cidr: u8) -> u32
    recommends
        has_host_range(addr, cidr),
{
    (broadcast_of(addr, cidr) - 1) as u32
}

/// The first address of the conventional DHCP pool: nine past the
/// first usable host for prefixes shorter than /25, and the first
/// usable host itself for /25 through /30.  The asymmetry is part of
/// the convention and is preserved exactly.
pub open spec fn dhcp_start_of(addr: u32, cidr: u8) -> u32
    recommends
        has_host_range(addr, cidr),
{
    if cidr < 25 {
        (host_start_of(addr, cidr) + 9) as u32
    } else {
        host_start_of(addr, cidr)
    }
}

/// Adds `d` to the last octet of an address, saturating at 255; the
/// first three octets are never disturbed.
pub open spec fn add_to_last_octet_saturating(addr: u32, d: u32) -> u32
    recommends
        d <= 255,
{
    if (addr & 0xFF) + d <= 0xFF {
        (addr + d) as u32
    } else {
        addr | 0xFF
    }
}

/// The last address of the conventional DHCP pool: ninety past its
/// first address, saturating within the last octet.
pub open spec fn dhcp_end_of(addr: u32, cidr: u8) -> u32
    recommends
        has_host_range(addr, cidr),
{
    add_to_last_octet_saturating(dhcp_start_of(addr, cidr), 90)
}

/// The count of assignable host addresses: 2^(32 - cidr) - 2 where a
/// host range exists (the two removed being the network and broadcast
/// addresses), and 0 for /31, /32 and classes D and E.
pub open spec fn usable_hosts_of(addr: u32, cidr: u8) -> u32
    recommends
        cidr <= 32,
{
    if has_host_range(addr, cidr) {
        (pow2((32 - cidr) as nat) - 2) as u32
    } else {
        0u32
    }
}

/// The complete analysis of an address under a prefix length, as one
/// immutable record.  This is the mathematical model that
/// [`NetworkInfo::analyze_network`] is proved to compute.
pub open spec fn spec_analysis(ip: Ipv4, cidr: u8) -> NetworkInfo
    recommends
        cidr <= 32,
{
    NetworkInfo {
        ip_address: ip,
        cidr: cidr,
        subnet_mask: Ipv4 { bits: mask_of(cidr) },
        ip_class: class_of(ip.bits),
        is_private: is_private_ip(ip.bits),
        network_address: Ipv4 { bits: network_of(ip.bits, cidr) },
        broadcast_address: if is_assignable_class(ip.bits) {
            Some(Ipv4 { bits: broadcast_of(ip.bits, cidr) })
        } else {
            None
        },
        host_range_start: if has_host_range(ip.bits, cidr) {
            Some(Ipv4 { bits: host_start_of(ip.bits, cidr) })
        } else {
            None
        },
        host_range_end: if has_host_range(ip.bits, cidr) {
            Some(Ipv4 { bits: host_end_of(ip.bits, cidr) })
        } else {
            None
        },
        usable_hosts: usable_hosts_of(ip.bits, cidr),
        dhcp_range_start: if has_host_range(ip.bits, cidr) {
            Some(Ipv4 { bits: dhcp_start_of(ip.bits, cidr) })
        } else {
            None
        },
        dhcp_range_end: if has_host_range(ip.bits, cidr) {
            Some(Ipv4 { bits: dhcp_end_of(ip.bits, cidr) })
        } else {
            None
        },
        default_gateway: if has_host_range(ip.bits, cidr) {
            Some(Ipv4 { bits: host_start_of(ip.bits, cidr) })
        } else {
            None
        },
        needs_nat: is_private_ip(ip.bits),
    }
}

/// Everything the analysis derives from an address and a prefix
/// length.  Optional fields are absent exactly where the quantity is
/// undefined: broadcast for classes D and E; host range, DHCP pool and
/// gateway additionally for /31 and /32.
#[derive(Clone, Copy, Debug, PartialEq)]
pub struct NetworkInfo {
    pub ip_address: Ipv4,
    pub cidr: u8,
    pub subnet_mask: Ipv4,
    pub ip_class: char,
    pub is_private: bool,
    pub network_address: Ipv4,
    pub broadcast_address: Option<Ipv4>,
    pub host_range_start: Option<Ipv4>,
    pub host_range_end: Option<Ipv4>,
    pub usable_hosts: u32,
    pub dhcp_range_start: Option<Ipv4>,
    pub dhcp_range_end: Option<Ipv4>,
    pub default_gateway: Option<Ipv4>,
    pub needs_nat: bool,
}

/// The one recoverable failure of the boundary-checked entry point.
/// An address of the wrong family cannot arise: [`Ipv4`] admits
/// nothing but IPv4 values.
#[derive(Clone, Copy, Debug, PartialEq, Eq, Structural)]
pub enum SubnetError {
    /// The prefix length lies outside the inclusive range 0 to 32.
    InvalidPrefixLength,
}

/// Bit-level facts about the mask that the analysis and its laws rest
/// on: the mask bounds the network and broadcast addresses, masking is
/// idempotent, the host bits span exactly `!mask`, and a host range
/// leaves room for the +1/-1 adjustments without overflow.
pub proof fn lemma_mask_facts(addr: u32, cidr: u8)
    by (bit_vector)
    requires
        cidr <= 32,
    ensures
        network_of(addr, cidr) <= addr,
        addr <= broadcast_of(addr, cidr),
        network_of(addr, cidr) & mask_of(cidr) == network_of(addr, cidr),
        broadcast_of(addr, cidr) & mask_of(cidr) == network_of(addr, cidr),
        broadcast_of(addr, cidr) - network_of(addr, cidr) == !mask_of(cidr),
        cidr <= 30 ==> network_of(addr, cidr) <= 0xFFFF_FFFC,
        cidr <= 30 ==> !mask_of(cidr) >= 3,
        cidr < 25 ==> network_of(addr, cidr) & 0xFF == 0,
        cidr < 25 ==> network_of(addr, cidr) <= 0xFFFF_FF00,
{
}

/// The complement of the mask, counted arithmetically: the host bits
/// of a /cidr subnet make up 2^(32 - cidr) - 1.
pub proof fn lemma_mask_pow2(cidr: u8)
    requires
        cidr <= 32,
    ensures
        !mask_of(cidr) == pow2((32 - cidr) as nat) - 1,
{
    let sh: u64 = (32 - cidr) as u64;
    lemma_u64_pow2_no_overflow(sh as nat);
    lemma_u64_shl_is_mul(1u64, sh);
    assert((!mask_of(cidr)) as u64 == (1u64 << sh) - 1) by (bit_vector)
        requires
            cidr <= 32,
            sh == (32 - cidr) as u64,
    ;
}

impl NetworkInfo {
    /// Computes every field of the record from the address and the
    /// prefix length; the result is exactly [`spec_analysis`], and
    /// `needs_nat` always mirrors `is_private`.
    pub fn analyze_network(ip_address: Ipv4, cidr: u8) -> (r: NetworkInfo)
        requires
            cidr <= 32,
        ensures
            r == spec_analysis(ip_address, cidr),
            r.needs_nat == r.is_private,
    {
        let bits: u32 = ip_address.bits;
        let fo: u32 = bits >> 24;
        let so: u32 = (bits >> 16) & 0xFF;

        let is_private: bool = fo == 10 || (fo == 172 && 16 <= so && so <= 31) || (fo == 192 && so
            == 168);

        let ip_class: char = if 1 <= fo && fo < 128 {
            'A'
        } else if 128 <= fo && fo < 192 {
            'B'
        } else if 192 <= fo && fo < 224 {
            'C'
        } else if 224 <= fo && fo < 240 {
            'D'
        } else {
            'E'
        };

        let mask: u32 = if cidr == 0 {
            0
        } else {
            0xFFFF_FFFFu32 << ((32 - cidr) as u32)
        };
        let network: u32 = bits & mask;
        let broadcast_bits: u32 = bits | !mask;

        let assignable: bool = ip_class == 'A' || ip_class == 'B' || ip_class == 'C';
        let broadcast_address: Option<Ipv4> = if assignable {
            Some(Ipv4 { bits: broadcast_bits })
        } else {
            None
        };

        proof {
            lemma_mask_facts(bits, cidr);
        }

        if assignable && cidr <= 30 {
            let start: u32 = network + 1;
            let end: u32 = broadcast_bits - 1;
            let dhcp_start: u32 = if cidr < 25 {
                start + 9
            } else {
                start
            };
            let low: u32 = dhcp_start & 0xFF;
            proof {
                assert(dhcp_start & 0xFF <= 0xFF && ((dhcp_start & 0xFF) + 90 <= 255 ==> dhcp_start
                    + 90 <= 0xFFFF_FFFF)) by (bit_vector);
                lemma_mask_pow2(cidr);
            }
            let dhcp_end: u32 = if low + 90 <= 255 {
                dhcp_start + 90
            } else {
                dhcp_start | 0xFF
            };
            let usable: u32 = !mask - 1;
            NetworkInfo {
                ip_address,
                cidr,
                subnet_mask: Ipv4 { bits: mask },
                ip_class,
                is_private,
                network_address: Ipv4 { bits: network },
                broadcast_address,
                host_range_start: Some(Ipv4 { bits: start }),
                host_range_end: Some(Ipv4 { bits: end }),
                usable_hosts: usable,
                dhcp_range_start: Some(Ipv4 { bits: dhcp_start }),
                dhcp_range_end: Some(Ipv4 { bits: dhcp_end }),
                default_gateway: Some(Ipv4 { bits: start }),
                needs_nat: is_private,
            }
        } else {
            NetworkInfo {
                ip_address,
                cidr,
                subnet_mask: Ipv4 { bits: mask },
                ip_class,
                is_private,
                network_address: Ipv4 { bits: network },
                broadcast_address,
                host_range_start: None,
                host_range_end: None,
                usable_hosts: 0,
                dhcp_range_start: None,
                dhcp_range_end: None,
                default_gateway: None,
                needs_nat: is_private,
            }
        }
    }

    /// Boundary-checked entry point: rejects a prefix length above 32
    /// and otherwise returns exactly the analysis.  Success if and
    /// only if the prefix length is in range.
    pub fn try_analyze(ip_address: Ipv4, cidr: u8) -> (r: Result<NetworkInfo, SubnetError>)
        ensures
            r is Ok <==> cidr <= 32,
            cidr <= 32 ==> r == Ok::<NetworkInfo, SubnetError>(spec_analysis(ip_address, cidr)),
            cidr > 32 ==> r == Err::<NetworkInfo, SubnetError>(SubnetError::InvalidPrefixLength),
    {
        if cidr <= 32 {
            Ok(Self::analyze_network(ip_address, cidr))
        } else {
            Err(SubnetError::InvalidPrefixLength)
        }
    }
}

} // verus!
