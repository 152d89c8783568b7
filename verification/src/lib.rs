//! IPv4 subnet analysis: given an address and a CIDR prefix length, this
//! crate computes the subnet mask, the legacy address class, the RFC1918
//! privacy status, the network and broadcast addresses, the usable host
//! range, a conventional DHCP pool, and a suggested default gateway.
//!
//! The whole computation is a pure, deterministic transformation of the
//! two inputs; every field of the result is pinned down by the contracts
//! in [`analysis`].

pub mod addr;
pub mod analysis;
pub mod laws;
