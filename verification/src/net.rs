//! IPv4 settings of the node: prefix lengths, subnet masks and the stack configuration
//! chosen at boot.
use vstd::prelude::*;
use crate::schema::{IpConfigType, NetworkConfig};

verus! {

/// Number of leading one bits of a byte: a byte has at least `k` leading ones exactly
/// when it is at least `256 - 2^(8 - k)`.
pub open spec fn leading_ones(b: u8) -> int {
    if b < 0x80 {
        0
    } else if b < 0xC0 {
        1
    } else if b < 0xE0 {
        2
    } else if b < 0xF0 {
        3
    } else if b < 0xF8 {
        4
    } else if b < 0xFC {
        5
    } else if b < 0xFE {
        6
    } else if b < 0xFF {
        7
    } else {
        8
    }
}

/// Prefix length read from mask bytes `i..4`: whole 0xFF bytes count 8, and the first
/// other byte adds its leading one bits and ends the count.
pub open spec fn mask_prefix(mask: Seq<u8>, i: int) -> int
    decreases 4 - i,
{
    if i >= 4 {
        0
    } else if mask[i] == 0xFF {
        8 + mask_prefix(mask, i + 1)
    } else {
        leading_ones(mask[i])
    }
}

fn leading_ones_exec(byte: u8) -> (r: u8)
    ensures
        r == leading_ones(byte),
        r < 8 || byte == 0xFF,
{
    let mut prefix: u8 = 0;
    let mut b = byte;
    proof {
        lemma_leading_ones_shift(byte);
    }
    while b & 0x80 != 0
        invariant
            prefix <= 8,
            leading_ones(byte) == prefix + leading_ones(b),
        decreases 8 - prefix,
    {
        proof {
            lemma_leading_ones_shift(b);
        }
        prefix += 1;
        b = b << 1;
    }
    proof {
        lemma_leading_ones_shift(b);
        lemma_leading_ones_shift(byte);
    }
    prefix
}

/// Shifting a byte with its top bit set up by one removes exactly one leading one.
proof fn lemma_leading_ones_shift(b: u8)
    ensures
        b & 0x80 != 0 ==> leading_ones(b) == 1 + leading_ones((b << 1u8) as u8),
        b & 0x80 == 0 ==> leading_ones(b) == 0,
        leading_ones(b) == 8 <==> b == 0xFF,
{
    assert((b & 0x80 != 0 <==> b >= 0x80) && (b >= 0x80 ==> (b << 1u8) as u8 == 2 * b - 256))
        by (bit_vector);
}

/// Convert subnet mask to prefix length
pub fn subnet_mask_to_prefix_len(mask: [u8; 4]) -> (r: u8)
    ensures
        r == mask_prefix(mask@, 0),
        r <= 32,
{
    let mut prefix = 0u8;
    let mut i: usize = 0;
    while i < 4
        invariant
            i <= 4,
            prefix == 8 * i,
            forall|k: int| 0 <= k < i ==> mask@[k] == 0xFF,
            mask_prefix(mask@, 0) == prefix + mask_prefix(mask@, i as int),
        decreases 4 - i,
    {
        let byte = mask[i];
        if byte == 0xFF {
            prefix += 8;
            i += 1;
        } else {
            let lo = leading_ones_exec(byte);
            proof {
                lemma_leading_ones_shift(byte);
            }
            return prefix + lo;
        }
    }
    prefix
}

/// A mask byte with its `r` top bits set.
pub open spec fn top_bits(r: int) -> u8 {
    if r <= 0 {
        0
    } else if r == 1 {
        0x80
    } else if r == 2 {
        0xC0
    } else if r == 3 {
        0xE0
    } else if r == 4 {
        0xF0
    } else if r == 5 {
        0xF8
    } else if r == 6 {
        0xFC
    } else if r == 7 {
        0xFE
    } else {
        0xFF
    }
}

/// The mask of a prefix length, as four bytes, most significant first.
pub open spec fn mask_of_prefix(p: int) -> Seq<u8> {
    Seq::new(4, |i: int| top_bits(p - 8 * i))
}

/// Reading a prefix length back from the mask it describes gives the prefix length.
pub proof fn lemma_prefix_mask_roundtrip(p: int)
    requires
        0 <= p <= 32,
    ensures
        mask_prefix(mask_of_prefix(p), 0) == p,
{
    reveal_with_fuel(mask_prefix, 5);
}

/// Subnet mask reported for the prefix length the stack came up with: /24, /16 and /8
/// map to their masks, anything else is reported as /24.
pub fn prefix_to_subnet_mask(prefix: u8) -> (r: [u8; 4])
    ensures
        r@ == (if prefix == 16 {
            mask_of_prefix(16)
        } else if prefix == 8 {
            mask_of_prefix(8)
        } else {
            mask_of_prefix(24)
        }),
{
    let r = match prefix {
        24 => [255, 255, 255, 0],
        16 => [255, 255, 0, 0],
        8 => [255, 0, 0, 0],
        _ => [255, 255, 255, 0],
    };
    assert(r@ =~= (if prefix == 16 {
        mask_of_prefix(16)
    } else if prefix == 8 {
        mask_of_prefix(8)
    } else {
        mask_of_prefix(24)
    }));
    r
}

/// How the network stack is brought up.
#[derive(Debug, Clone, Copy)]
pub enum NetStackConfig {
    /// Static address with this prefix length and gateway.
    Static { address: [u8; 4], prefix_len: u8, gateway: [u8; 4] },
    /// Ask a DHCP server.
    Dhcp,
}

/// The static configuration used when the stored one is incomplete:
/// 192.168.0.2/24 via 192.168.0.1.
pub fn get_default_net_config() -> (r: NetStackConfig)
    ensures
        r == (NetStackConfig::Static {
            address: [192u8, 168u8, 0u8, 2u8],
            prefix_len: 24u8,
            gateway: [192u8, 168u8, 0u8, 1u8],
        }),
{
    NetStackConfig::Static { address: [192, 168, 0, 2], prefix_len: 24, gateway: [192, 168, 0, 1] }
}

/// Stack configuration for the stored network settings: DHCP when configured so; a static
/// setup when address, mask and gateway are all present (prefix length from the mask);
/// otherwise the default static setup.
pub fn net_stack_config(config: &NetworkConfig) -> (r: NetStackConfig)
    ensures
        r == (match config.ip_config_type {
            IpConfigType::Dhcp => NetStackConfig::Dhcp,
            IpConfigType::Static => match (config.ip_address, config.subnet_mask, config.gateway) {
                (Some(ip), Some(mask), Some(gw)) => NetStackConfig::Static {
                    address: ip,
                    prefix_len: mask_prefix(mask@, 0) as u8,
                    gateway: gw,
                },
                _ => NetStackConfig::Static {
                    address: [192u8, 168u8, 0u8, 2u8],
                    prefix_len: 24u8,
                    gateway: [192u8, 168u8, 0u8, 1u8],
                },
            },
        }),
{
    match config.ip_config_type {
        IpConfigType::Static => {
            if let (Some(ip), Some(subnet), Some(gateway)) = (
                config.ip_address,
                config.subnet_mask,
                config.gateway,
            ) {
                let prefix_len = subnet_mask_to_prefix_len(subnet);
                NetStackConfig::Static { address: ip, prefix_len, gateway }
            } else {
                get_default_net_config()
            }
        },
        IpConfigType::Dhcp => NetStackConfig::Dhcp,
    }
}

} // verus!
