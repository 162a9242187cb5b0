//! MAC addresses for guests.

use vstd::prelude::*;
use vstd::string::*;
use crate::outside::random_byte;
use crate::text::{hex_byte, hex_pair};

verus! {

/// A first octet that marks an address as unicast and locally
/// administered: the two lowest bits are `10`.
pub open spec fn local_unicast(b: u8) -> u8 {
    (b & 0xFC) | 0x02
}

/// Six octets as text: two upper-case hexadecimal digits each, colons
/// between them.
pub open spec fn mac_text(octets: Seq<u8>) -> Seq<char> {
    hex_pair(octets[0]) + ":"@ + hex_pair(octets[1]) + ":"@ + hex_pair(octets[2]) + ":"@
        + hex_pair(octets[3]) + ":"@ + hex_pair(octets[4]) + ":"@ + hex_pair(octets[5])
}

/// The address made from six arbitrary octets: the first is made unicast
/// and locally administered, the others are taken as they are.
pub open spec fn mac_of(raw: Seq<u8>) -> Seq<char> {
    mac_text(raw.update(0, local_unicast(raw[0])))
}

/// The address made from six arbitrary octets.
pub fn mac_from_bytes(raw: [u8; 6]) -> (r: String)
    ensures
        r@ == mac_of(raw@),
{
    let first: u8 = (raw[0] & 0xFC) | 0x02;
    let mut r = hex_byte(first);
    r.append(":");
    r.append(hex_byte(raw[1]).as_str());
    r.append(":");
    r.append(hex_byte(raw[2]).as_str());
    r.append(":");
    r.append(hex_byte(raw[3]).as_str());
    r.append(":");
    r.append(hex_byte(raw[4]).as_str());
    r.append(":");
    r.append(hex_byte(raw[5]).as_str());
    r
}

/// A random address that is unicast and locally administered.
pub fn generate_unique_mac() -> (r: String)
    ensures
        exists|raw: Seq<u8>| raw.len() == 6 && r@ == mac_of(raw),
{
    let raw: [u8; 6] = [
        random_byte(),
        random_byte(),
        random_byte(),
        random_byte(),
        random_byte(),
        random_byte(),
    ];
    let r = mac_from_bytes(raw);
    assert(raw@.len() == 6);
    r
}

/// Every address that is generated is unicast and locally administered:
/// it is seventeen characters long, and the two lowest bits of its first
/// octet are `10`.
pub proof fn lemma_generated_mac_is_local_unicast(raw: Seq<u8>)
    requires
        raw.len() == 6,
    ensures
        local_unicast(raw[0]) & 0x03 == 0x02,
        mac_of(raw).len() == 17,
        mac_of(raw).subrange(0, 2) == hex_pair(local_unicast(raw[0])),
{
    reveal_strlit(":");
    let b = raw[0];
    assert((b & 0xFC) | 0x02 == local_unicast(b));
    assert(((b & 0xFC) | 0x02) & 0x03 == 0x02) by (bit_vector);
    assert(mac_of(raw).subrange(0, 2) =~= hex_pair(local_unicast(raw[0])));
}

} // verus!
