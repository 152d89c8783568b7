use vstd::arithmetic::power2::pow2;
use vstd::prelude::*;

verus! {

use crate::addr::Ipv4;
use crate::analysis::{
    broadcast_of, class_of, has_host_range, host_end_of, host_start_of, lemma_mask_facts,
    lemma_mask_pow2, mask_of, network_of, spec_analysis, usable_hosts_of,
};

/// Law: the network address never exceeds the address it was derived
/// from, and it is a fixed point of masking with the same prefix.
pub proof fn lemma_network_address_law(addr: u32, cidr: u8)
    requires
        cidr <= 32,
    ensures
        network_of(addr, cidr) <= addr,
        network_of(network_of(addr, cidr), cidr) == network_of(addr, cidr),
{
    lemma_mask_facts(addr, cidr);
    lemma_mask_facts(network_of(addr, cidr), cidr);
}

/// Law: the usable host count is 0 exactly for /31, /32 and classes D
/// and E; on every other input it is 2^(32 - cidr) - 2.
pub proof fn lemma_usable_hosts_law(addr: u32, cidr: u8)
    requires
        cidr <= 32,
    ensures
        (cidr == 31 || cidr == 32 || class_of(addr) == 'D' || class_of(addr) == 'E')
            ==> usable_hosts_of(addr, cidr) == 0,
        !(cidr == 31 || cidr == 32 || class_of(addr) == 'D' || class_of(addr) == 'E')
            ==> usable_hosts_of(addr, cidr) == pow2((32 - cidr) as nat) - 2,
{
    lemma_mask_facts(addr, cidr);
    lemma_mask_pow2(cidr);
}

/// Law: `needs_nat` equals `is_private` on the result of every
/// analysis.
pub proof fn lemma_needs_nat_law(ip: Ipv4, cidr: u8)
    requires
        cidr <= 32,
    ensures
        spec_analysis(ip, cidr).needs_nat == spec_analysis(ip, cidr).is_private,
{
}

/// Law: masking the broadcast address with the same prefix gives back
/// the masked network address, which is the network address itself.
pub proof fn lemma_broadcast_round_trip(addr: u32, cidr: u8)
    requires
        cidr <= 32,
    ensures
        broadcast_of(addr, cidr) & mask_of(cidr) == network_of(addr, cidr) & mask_of(cidr),
        broadcast_of(addr, cidr) & mask_of(cidr) == network_of(addr, cidr),
{
    lemma_mask_facts(addr, cidr);
}

/// The record's internal invariants: the address sits between network
/// and broadcast; where the host range exists its start lies strictly
/// below its end, and the usable host count is exactly the size of
/// that range.
pub proof fn lemma_record_invariants(addr: u32, cidr: u8)
    requires
        cidr <= 32,
    ensures
        network_of(addr, cidr) <= addr,
        addr <= broadcast_of(addr, cidr),
        has_host_range(addr, cidr) ==> host_start_of(addr, cidr) < host_end_of(addr, cidr),
        has_host_range(addr, cidr) ==> usable_hosts_of(addr, cidr) == host_end_of(addr, cidr)
            - host_start_of(addr, cidr) + 1,
        !has_host_range(addr, cidr) ==> usable_hosts_of(addr, cidr) == 0,
{
    lemma_mask_facts(addr, cidr);
    lemma_mask_pow2(cidr);
}

} // verus!
