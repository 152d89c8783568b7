use vstd::prelude::*;

verus! {

/// An IPv4 address, held as its 32-bit numeric value with the first
/// (most significant) octet in the top eight bits.
#[derive(Clone, Copy, Debug, PartialEq, Eq, Structural)]
pub struct Ipv4 {
    pub bits: u32,
}

/// The first (most significant) octet of an address value.
pub open spec fn first_octet(addr: u32) -> u32 {
    addr >> 24u32
}

/// The second octet of an address value.
pub open spec fn second_octet(addr: u32) -> u32 {
    (addr >> 16u32) & 0xFF
}

impl Ipv4 {
    /// Builds the address written `a.b.c.d` in dotted notation.
    pub fn new(a: u8, b: u8, c: u8, d: u8) -> (r: Ipv4)
        ensures
            r.bits == (a as u32) * 0x100_0000 + (b as u32) * 0x1_0000 + (c as u32) * 0x100 + (
            d as u32),
    {
        Ipv4 {
            bits: (a as u32) * 0x100_0000 + (b as u32) * 0x1_0000 + (c as u32) * 0x100 + (d as u32),
        }
    }

    /// Builds an address directly from its numeric value.
    pub fn from_bits(bits: u32) -> (r: Ipv4)
        ensures
            r.bits == bits,
    {
        Ipv4 { bits }
    }

    /// The four octets of the address, most significant first; recombining
    /// them gives back the numeric value.
    pub fn octets(self) -> (r: (u8, u8, u8, u8))
        ensures
            r.0 as u32 == first_octet(self.bits),
            r.1 as u32 == second_octet(self.bits),
            r.2 as u32 == (self.bits >> 8u32) & 0xFF,
            r.3 as u32 == self.bits & 0xFF,
            self.bits == (r.0 as u32) * 0x100_0000 + (r.1 as u32) * 0x1_0000 + (r.2 as u32) * 0x100
                + (r.3 as u32),
    {
        let b: u32 = self.bits;
        proof {
            assert(b >> 24u32 <= 0xFF && (b >> 16u32) & 0xFF <= 0xFF && (b >> 8u32) & 0xFF <= 0xFF
                && b & 0xFF <= 0xFF && b == ((b >> 24u32) & 0xFF) * 0x100_0000 + ((b >> 16u32)
                & 0xFF) * 0x1_0000 + ((b >> 8u32) & 0xFF) * 0x100 + (b & 0xFF) && (b >> 24u32)
                & 0xFF == b >> 24u32) by (bit_vector);
        }
        ((b >> 24) as u8, ((b >> 16) & 0xFF) as u8, ((b >> 8) & 0xFF) as u8, (b & 0xFF) as u8)
    }
}

/// The octets handed to [`Ipv4::new`] come back unchanged from the
/// numeric value: `a` is the first octet and `b` the second.
pub proof fn lemma_new_octets(a: u8, b: u8, c: u8, d: u8)
    ensures
        first_octet(
            ((a as u32) * 0x100_0000 + (b as u32) * 0x1_0000 + (c as u32) * 0x100
                + (d as u32)) as u32,
        ) == a,
        second_octet(
            ((a as u32) * 0x100_0000 + (b as u32) * 0x1_0000 + (c as u32) * 0x100
                + (d as u32)) as u32,
        ) == b,
{
    assert(((a as u32) * 0x100_0000 + (b as u32) * 0x1_0000 + (c as u32) * 0x100 + (
    d as u32)) as u32 >> 24u32 == a && (((a as u32) * 0x100_0000 + (b as u32) * 0x1_0000 + (
    c as u32) * 0x100 + (d as u32)) as u32 >> 16u32) & 0xFF == b) by (bit_vector);
}

} // verus!
