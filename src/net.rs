//! IP addresses as plain integers, and the address classes the gateway
//! treats as "not publicly routable".

use vstd::prelude::*;

verus! {

/// An IPv4 or IPv6 address in network byte order, held as one integer
/// (the first octet or segment is the most significant part).
#[derive(Clone, Copy, Debug, PartialEq, Eq, Hash, Structural)]
pub enum IpAddress {
    V4(u32),
    V6(u128),
}

/// 2^24: dividing an IPv4 address by it leaves the first octet.
pub const V4_OCTET1: u32 = 0x100_0000;

/// 2^16: dividing an IPv4 address by it leaves the first two octets.
pub const V4_OCTET2: u32 = 0x1_0000;

/// 2^8: dividing an IPv4 address by it leaves the first three octets.
pub const V4_OCTET3: u32 = 0x100;

/// 2^112: dividing an IPv6 address by it leaves the first segment.
pub const V6_SEGMENT1: u128 = 0x1_0000_0000_0000_0000_0000_0000_0000;

/// 2^96: dividing an IPv6 address by it leaves the first two segments.
pub const V6_SEGMENT2: u128 = 0x1_0000_0000_0000_0000_0000_0000;

/// 2^32: dividing an IPv6 address by it leaves the first six segments.
pub const V6_SEGMENT6: u128 = 0x1_0000_0000;

/// The IPv4 blocks that are not publicly routable: private (10/8,
/// 172.16/12, 192.168/16), loopback (127/8), link-local (169.254/16),
/// multicast (224/4), broadcast, unspecified, and the documentation blocks
/// 192.0.2/24, 198.51.100/24 and 203.0.113/24.
pub open spec fn v4_is_private(a: u32) -> bool {
    let a = a as int;
    ||| a / 0x100_0000 == 10
    ||| a / 0x10_0000 == 0xAC1
    ||| a / 0x1_0000 == 0xC0A8
    ||| a / 0x100_0000 == 127
    ||| a / 0x1_0000 == 0xA9FE
    ||| a / 0x1000_0000 == 0xE
    ||| a == 0xFFFF_FFFF
    ||| a == 0
    ||| a / 0x100 == 0xC0_0002
    ||| a / 0x100 == 0xC6_3364
    ||| a / 0x100 == 0xCB_0071
}

/// The IPv6 blocks that are not publicly routable: unspecified (::),
/// loopback (::1), unique local (fc00::/7), unicast link-local (fe80::/10),
/// multicast (ff00::/8), documentation (2001:db8::/32) and IPv4-mapped
/// addresses (::ffff:0:0/96).
pub open spec fn v6_is_private(a: u128) -> bool {
    let a = a as int;
    let first = a / 0x1_0000_0000_0000_0000_0000_0000_0000;
    ||| a == 0
    ||| a == 1
    ||| first / 0x200 == 0x7E
    ||| first / 0x40 == 0x3FA
    ||| first / 0x100 == 0xFF
    ||| a / 0x1_0000_0000_0000_0000_0000_0000 == 0x2001_0DB8
    ||| a / 0x1_0000_0000 == 0xFFFF
}

pub open spec fn spec_is_private_ip(ip: IpAddress) -> bool {
    match ip {
        IpAddress::V4(a) => v4_is_private(a),
        IpAddress::V6(a) => v6_is_private(a),
    }
}

/// Whether `ip` is not a publicly routable address.
pub fn is_private_ip(ip: &IpAddress) -> (r: bool)
    ensures
        r == spec_is_private_ip(*ip),
{
    match *ip {
        IpAddress::V4(a) => {
            let octet1 = a / V4_OCTET1;
            let octets2 = a / V4_OCTET2;
            let octets3 = a / V4_OCTET3;
            octet1 == 10 || a / 0x10_0000 == 0xAC1 || octets2 == 0xC0A8 || octet1 == 127
                || octets2 == 0xA9FE || a / 0x1000_0000 == 0xE || a == 0xFFFF_FFFF || a == 0 || octets3 == 0xC0_0002
                || octets3 == 0xC6_3364 || octets3 == 0xCB_0071
        },
        IpAddress::V6(a) => {
            let first = a / V6_SEGMENT1;
            a == 0 || a == 1 || first / 0x200 == 0x7E || first / 0x40 == 0x3FA || first / 0x100
                == 0xFF || a / V6_SEGMENT2 == 0x2001_0DB8 || a / V6_SEGMENT6 == 0xFFFF
        },
    }
}

} // verus!
